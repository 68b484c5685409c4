use ps_gpib::buf::{buf_from_slice, buf_to_vec, ByteBuf};
use ps_gpib::protocol::{ping, ping_query_at, Channel, ChannelHeader, Command, Query, PING_LOOP_LEN};

#[test]
fn query_text_and_parse_round_trip() {
    let q = Query { header: ChannelHeader::Vset, channel: Channel::Ch1 };
    let s = q.to_str();
    assert_eq!(buf_to_vec(&s), b"VSET? 1".to_vec());
    assert_eq!(Query::parse(&buf_to_vec(&s)), Some(q));
}

#[test]
fn every_query_parses_back() {
    for h in [ChannelHeader::Vset, ChannelHeader::Iset, ChannelHeader::Vout, ChannelHeader::Iout, ChannelHeader::Out] {
        for c in [Channel::Ch1, Channel::Ch2] {
            let q = Query { header: h, channel: c };
            assert_eq!(Query::parse(&buf_to_vec(&q.to_str())), Some(q));
        }
    }
    assert_eq!(Query::parse(&b"VSET? 3".to_vec()), None);
    assert_eq!(Query::parse(&b"XSET? 1".to_vec()), None);
    assert_eq!(Query::parse(&b"OUT?1".to_vec()), None);
}

#[test]
fn vset_command_text() {
    let mut buf = ByteBuf::new();
    Command::Vset { ch: Channel::Ch2, val: 5125 }.append_to_str(&mut buf);
    assert_eq!(buf_to_vec(&buf), b"VSET 2 5.125;".to_vec());
}

#[test]
fn iset_and_out_command_text() {
    let mut buf = ByteBuf::new();
    Command::Iset { ch: Channel::Ch1, val: 400 }.append_to_str(&mut buf);
    Command::Out { ch: Channel::Ch2, on: true }.append_to_str(&mut buf);
    assert_eq!(buf_to_vec(&buf), b"ISET 1 0.400;OUT 2 1;".to_vec());
}

#[test]
fn query_serial_request() {
    let q = Query { header: ChannelHeader::Iout, channel: Channel::Ch2 };
    let mut sbuf = buf_from_slice(b"junk");
    q.write_serial_cmd_buf(&mut sbuf);
    assert_eq!(buf_to_vec(&sbuf), b"IOUT? 2\r\n++read eoi\r\n".to_vec());
    assert_eq!(q.query_channel(), Some(Channel::Ch2));
    assert_eq!(Channel::Ch1.to_str(), "1");
}

#[test]
fn ping_cycles_through_all_entries() {
    let mut query = None;
    let mut idx: usize = 0;
    let mut seen = Vec::new();
    for _ in 0..PING_LOOP_LEN {
        ping(&mut query, &mut idx, false);
        seen.push(query.unwrap());
        query = None;
    }
    assert_eq!(idx, 0);
    assert_eq!(seen[0], Query { header: ChannelHeader::Vset, channel: Channel::Ch1 });
    assert_eq!(seen[3], Query { header: ChannelHeader::Iset, channel: Channel::Ch2 });
    let vout1 = seen.iter().filter(|q| **q == Query { header: ChannelHeader::Vout, channel: Channel::Ch1 }).count();
    let vset1 = seen.iter().filter(|q| **q == Query { header: ChannelHeader::Vset, channel: Channel::Ch1 }).count();
    let out2 = seen.iter().filter(|q| **q == Query { header: ChannelHeader::Out, channel: Channel::Ch2 }).count();
    assert_eq!(vset1, 1);
    assert!(vout1 > 1);
    assert!(out2 > 1);
    assert_eq!(ping_query_at(4), Query { header: ChannelHeader::Vout, channel: Channel::Ch1 });
}

#[test]
fn ping_waits_for_outstanding_query() {
    let q = Query { header: ChannelHeader::Out, channel: Channel::Ch1 };
    let mut query = Some(q);
    let mut idx: usize = 5;
    ping(&mut query, &mut idx, false);
    assert_eq!(query, Some(q));
    assert_eq!(idx, 5);
}

#[test]
fn ping_waits_for_pending_command() {
    let mut query = None;
    let mut idx: usize = 2;
    ping(&mut query, &mut idx, true);
    assert_eq!(query, None);
    assert_eq!(idx, 2);
    ping(&mut query, &mut idx, false);
    assert_eq!(query, Some(Query { header: ChannelHeader::Vset, channel: Channel::Ch2 }));
    assert_eq!(idx, 3);
}
