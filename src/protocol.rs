//! AR488 serial protocol: queries, commands and their text.

use vstd::prelude::*;

use crate::buf::{buf_append, buf_clear, buf_contents, buf_new, ByteBuf, BUF_CAP};
use crate::decimal::{lemma_milli_text_len, milli_text, push_milli};

verus! {

/// Bound on the magnitude of a setpoint written into a command, in
/// thousandths.
pub const MAX_CMD_MILLI: i64 = 1_000_000_000_000;

/// A channel of the power supply.
#[derive(Copy, Clone, Debug, PartialEq, Eq, Structural)]
pub enum Channel {
    Ch1,
    Ch2,
}

/// What a query asks for.
#[derive(Copy, Clone, Debug, PartialEq, Eq, Structural)]
pub enum ChannelHeader {
    Vset,
    Iset,
    Vout,
    Iout,
    Out,
}

/// A query for one reading of one channel.
#[derive(Copy, Clone, Debug, PartialEq, Eq, Structural)]
pub struct Query {
    pub header: ChannelHeader,
    pub channel: Channel,
}

/// A setting sent to the power supply; values in thousandths.
#[derive(Copy, Clone, Debug, PartialEq, Eq, Structural)]
pub enum Command {
    Vset { ch: Channel, val: i64 },
    Iset { ch: Channel, val: i64 },
    Out { ch: Channel, on: bool },
}

/// Number of entries of the periodic query cycle.
pub const PING_LOOP_LEN: usize = 18;

pub open spec fn channel_digit(c: Channel) -> u8 {
    match c {
        Channel::Ch1 => 49,
        Channel::Ch2 => 50,
    }
}

pub open spec fn header_text(h: ChannelHeader) -> Seq<u8> {
    match h {
        ChannelHeader::Vset => seq![86u8, 83, 69, 84],
        ChannelHeader::Iset => seq![73u8, 83, 69, 84],
        ChannelHeader::Vout => seq![86u8, 79, 85, 84],
        ChannelHeader::Iout => seq![73u8, 79, 85, 84],
        ChannelHeader::Out => seq![79u8, 85, 84],
    }
}

/// `"<HEADER>? <channel>"`, e.g. `"VSET? 1"`.
pub open spec fn query_text(q: Query) -> Seq<u8> {
    header_text(q.header) + seq![63u8, 32, channel_digit(q.channel)]
}

/// The query as sent to the serial adapter: the query line, then the adapter's
/// instruction to read the answer.
pub open spec fn query_request(q: Query) -> Seq<u8> {
    query_text(q) + seq![13u8, 10] + seq![43u8, 43, 114, 101, 97, 100, 32, 101, 111, 105, 13, 10]
}

/// What follows the header in a query request.
pub open spec fn query_tail(q: Query) -> Seq<u8> {
    seq![63u8, 32, channel_digit(q.channel), 13, 10, 43, 43, 114, 101, 97, 100, 32, 101, 111, 105, 13, 10]
}

/// `"VSET <ch> <val:.3>;"`, `"ISET <ch> <val:.3>;"` or `"OUT <ch> <0|1>;"`.
pub open spec fn command_text(c: Command) -> Seq<u8> {
    match c {
        Command::Vset { ch, val } => header_text(ChannelHeader::Vset) + seq![
            32u8,
            channel_digit(ch),
            32,
        ] + milli_text(val as int) + seq![59u8],
        Command::Iset { ch, val } => header_text(ChannelHeader::Iset) + seq![
            32u8,
            channel_digit(ch),
            32,
        ] + milli_text(val as int) + seq![59u8],
        Command::Out { ch, on } => header_text(ChannelHeader::Out) + seq![
            32u8,
            channel_digit(ch),
            32,
            if on {
                49u8
            } else {
                48u8
            },
            59,
        ],
    }
}

pub open spec fn command_ok(c: Command) -> bool {
    match c {
        Command::Vset { val, .. } => -MAX_CMD_MILLI <= val <= MAX_CMD_MILLI,
        Command::Iset { val, .. } => -MAX_CMD_MILLI <= val <= MAX_CMD_MILLI,
        Command::Out { .. } => true,
    }
}

pub open spec fn header_of_text(t: Seq<u8>) -> Option<ChannelHeader> {
    if t == header_text(ChannelHeader::Vset) {
        Some(ChannelHeader::Vset)
    } else if t == header_text(ChannelHeader::Iset) {
        Some(ChannelHeader::Iset)
    } else if t == header_text(ChannelHeader::Vout) {
        Some(ChannelHeader::Vout)
    } else if t == header_text(ChannelHeader::Iout) {
        Some(ChannelHeader::Iout)
    } else if t == header_text(ChannelHeader::Out) {
        Some(ChannelHeader::Out)
    } else {
        None
    }
}

pub open spec fn channel_of_digit(b: u8) -> Option<Channel> {
    if b == 49 {
        Some(Channel::Ch1)
    } else if b == 50 {
        Some(Channel::Ch2)
    } else {
        None
    }
}

/// The query that a text `"<HEADER>? <channel>"` names, if any.
pub open spec fn parse_query(s: Seq<u8>) -> Option<Query> {
    if s.len() >= 3 && s[s.len() - 3] == 63 && s[s.len() - 2] == 32 {
        match (header_of_text(s.subrange(0, s.len() - 3)), channel_of_digit(s[s.len() - 1])) {
            (Some(h), Some(c)) => Some(Query { header: h, channel: c }),
            _ => None,
        }
    } else {
        None
    }
}

/// Entry `i` of the periodic query cycle: the setpoints of both channels
/// once, the measured outputs and the output state several times.
pub open spec fn ping_query(i: int) -> Query {
    let (h, c) = if i == 0 {
        (ChannelHeader::Vset, Channel::Ch1)
    } else if i == 1 {
        (ChannelHeader::Iset, Channel::Ch1)
    } else if i == 2 {
        (ChannelHeader::Vset, Channel::Ch2)
    } else if i == 3 {
        (ChannelHeader::Iset, Channel::Ch2)
    } else if i == 16 {
        (ChannelHeader::Out, Channel::Ch1)
    } else if i == 17 {
        (ChannelHeader::Out, Channel::Ch2)
    } else {
        let k = (i - 4) % 6;
        if k == 0 {
            (ChannelHeader::Vout, Channel::Ch1)
        } else if k == 1 {
            (ChannelHeader::Iout, Channel::Ch1)
        } else if k == 2 {
            (ChannelHeader::Out, Channel::Ch1)
        } else if k == 3 {
            (ChannelHeader::Vout, Channel::Ch2)
        } else if k == 4 {
            (ChannelHeader::Iout, Channel::Ch2)
        } else {
            (ChannelHeader::Out, Channel::Ch2)
        }
    };
    Query { header: h, channel: c }
}

impl Channel {
    /// The channel's number as the protocol writes it.
    pub fn to_str(&self) -> (r: &'static str)
        ensures
            r@ == seq![channel_digit(*self) as char],
    {
        match self {
            Channel::Ch1 => {
                proof {
                    reveal_strlit("1");
                }
                "1"
            },
            Channel::Ch2 => {
                proof {
                    reveal_strlit("2");
                }
                "2"
            },
        }
    }

    /// The channel's number as one ASCII byte.
    pub fn digit(&self) -> (r: u8)
        ensures
            r == channel_digit(*self),
    {
        match self {
            Channel::Ch1 => 49,
            Channel::Ch2 => 50,
        }
    }
}

impl ChannelHeader {
    /// Appends the header's name to a buffer with room for it.
    pub fn append_to(&self, out: &mut ByteBuf)
        requires
            buf_contents(*old(out)).len() + 4 <= BUF_CAP,
        ensures
            buf_contents(*final(out)) == buf_contents(*old(out)) + header_text(*self),
    {
        let ghost start = buf_contents(*out);
        match self {
            ChannelHeader::Vset => {
                buf_append(out, 86);
                buf_append(out, 83);
                buf_append(out, 69);
                buf_append(out, 84);
            },
            ChannelHeader::Iset => {
                buf_append(out, 73);
                buf_append(out, 83);
                buf_append(out, 69);
                buf_append(out, 84);
            },
            ChannelHeader::Vout => {
                buf_append(out, 86);
                buf_append(out, 79);
                buf_append(out, 85);
                buf_append(out, 84);
            },
            ChannelHeader::Iout => {
                buf_append(out, 73);
                buf_append(out, 79);
                buf_append(out, 85);
                buf_append(out, 84);
            },
            ChannelHeader::Out => {
                buf_append(out, 79);
                buf_append(out, 85);
                buf_append(out, 84);
            },
        }
        assert(buf_contents(*out) =~= start + header_text(*self));
    }
}

impl Query {
    /// The query's text, e.g. `"VSET? 1"`.
    pub fn to_str(&self) -> (r: ByteBuf)
        ensures
            buf_contents(r) == query_text(*self),
    {
        let mut r = buf_new();
        self.header.append_to(&mut r);
        buf_append(&mut r, 63);
        buf_append(&mut r, 32);
        buf_append(&mut r, self.channel.digit());
        assert(buf_contents(r) =~= query_text(*self));
        r
    }

    /// Replaces the contents of `sbuf` with the query as sent over the serial
    /// line.
    pub fn write_serial_cmd_buf(&self, sbuf: &mut ByteBuf)
        ensures
            buf_contents(*final(sbuf)) == query_request(*self),
    {
        buf_clear(sbuf);
        self.header.append_to(sbuf);
        let bytes: [u8; 17] = [63, 32, 0, 13, 10, 43, 43, 114, 101, 97, 100, 32, 101, 111, 105, 13, 10];
        let mut i: usize = 0;
        while i < 17
            invariant
                0 <= i <= 17,
                buf_contents(*sbuf) == header_text(self.header) + query_tail(*self).subrange(0, i as int),
                header_text(self.header).len() <= 4,
                forall|j: int| 0 <= j < 17 && j != 2 ==> bytes@[j] == query_tail(*self)[j],
            decreases 17 - i,
        {
            let b = if i == 2 {
                self.channel.digit()
            } else {
                bytes[i]
            };
            buf_append(sbuf, b);
            i = i + 1;
            assert(buf_contents(*sbuf) =~= header_text(self.header) + query_tail(*self).subrange(0, i as int));
        }
        assert(query_tail(*self).subrange(0, 17) =~= query_tail(*self));
        assert(header_text(self.header) + query_tail(*self) =~= query_request(*self));
    }

    /// The channel that the query is about.
    pub fn query_channel(&self) -> (r: Option<Channel>)
        ensures
            r == Some(self.channel),
    {
        Some(self.channel)
    }

    /// Reads a query back from its text.
    pub fn parse(s: &Vec<u8>) -> (r: Option<Query>)
        ensures
            r == parse_query(s@),
    {
        let n = s.len();
        if n < 3 || s[n - 3] != 63 || s[n - 2] != 32 {
            return None;
        }
        let ch = if s[n - 1] == 49 {
            Channel::Ch1
        } else if s[n - 1] == 50 {
            Channel::Ch2
        } else {
            return None;
        };
        let ghost t = s@.subrange(0, n - 3);
        let h = if n == 7 && s[0] == 86 && s[1] == 83 && s[2] == 69 && s[3] == 84 {
            assert(t =~= header_text(ChannelHeader::Vset));
            ChannelHeader::Vset
        } else if n == 7 && s[0] == 73 && s[1] == 83 && s[2] == 69 && s[3] == 84 {
            assert(t =~= header_text(ChannelHeader::Iset));
            ChannelHeader::Iset
        } else if n == 7 && s[0] == 86 && s[1] == 79 && s[2] == 85 && s[3] == 84 {
            assert(t =~= header_text(ChannelHeader::Vout));
            ChannelHeader::Vout
        } else if n == 7 && s[0] == 73 && s[1] == 79 && s[2] == 85 && s[3] == 84 {
            assert(t =~= header_text(ChannelHeader::Iout));
            ChannelHeader::Iout
        } else if n == 6 && s[0] == 79 && s[1] == 85 && s[2] == 84 {
            assert(t =~= header_text(ChannelHeader::Out));
            ChannelHeader::Out
        } else {
            proof {
                if header_of_text(t) is Some {
                    assert(t.len() == 4 ==> t[0] == s@[0] && t[1] == s@[1] && t[2] == s@[2] && t[3]
                        == s@[3]);
                    assert(t.len() == 3 ==> t[0] == s@[0] && t[1] == s@[1] && t[2] == s@[2]);
                }
            }
            return None;
        };
        Some(Query { header: h, channel: ch })
    }
}

impl Command {
    /// Appends the command's text to a buffer with room for it.
    pub fn append_to_str(&self, buf: &mut ByteBuf)
        requires
            command_ok(*self),
            buf_contents(*old(buf)).len() + command_text(*self).len() <= BUF_CAP,
        ensures
            buf_contents(*final(buf)) == buf_contents(*old(buf)) + command_text(*self),
    {
        let ghost start = buf_contents(*buf);
        match self {
            Command::Vset { ch, val } => {
                ChannelHeader::Vset.append_to(buf);
                buf_append(buf, 32);
                buf_append(buf, ch.digit());
                buf_append(buf, 32);
                push_milli(buf, *val);
                buf_append(buf, 59);
            },
            Command::Iset { ch, val } => {
                ChannelHeader::Iset.append_to(buf);
                buf_append(buf, 32);
                buf_append(buf, ch.digit());
                buf_append(buf, 32);
                push_milli(buf, *val);
                buf_append(buf, 59);
            },
            Command::Out { ch, on } => {
                ChannelHeader::Out.append_to(buf);
                buf_append(buf, 32);
                buf_append(buf, ch.digit());
                buf_append(buf, 32);
                buf_append(
                    buf,
                    if *on {
                        49
                    } else {
                        48
                    },
                );
                buf_append(buf, 59);
            },
        }
        assert(buf_contents(*buf) =~= start + command_text(*self));
    }
}

/// A command's text takes at most 23 bytes.
pub proof fn lemma_command_text_len(c: Command)
    requires
        command_ok(c),
    ensures
        command_text(c).len() <= 23,
{
    match c {
        Command::Vset { val, .. } => lemma_milli_text_len(val as int),
        Command::Iset { val, .. } => lemma_milli_text_len(val as int),
        Command::Out { .. } => {},
    }
}

/// Entry `i` of the periodic query cycle.
pub fn ping_query_at(i: usize) -> (r: Query)
    requires
        i < PING_LOOP_LEN,
    ensures
        r == ping_query(i as int),
{
    let (h, c) = if i == 0 {
        (ChannelHeader::Vset, Channel::Ch1)
    } else if i == 1 {
        (ChannelHeader::Iset, Channel::Ch1)
    } else if i == 2 {
        (ChannelHeader::Vset, Channel::Ch2)
    } else if i == 3 {
        (ChannelHeader::Iset, Channel::Ch2)
    } else if i == 16 {
        (ChannelHeader::Out, Channel::Ch1)
    } else if i == 17 {
        (ChannelHeader::Out, Channel::Ch2)
    } else {
        let k = (i - 4) % 6;
        if k == 0 {
            (ChannelHeader::Vout, Channel::Ch1)
        } else if k == 1 {
            (ChannelHeader::Iout, Channel::Ch1)
        } else if k == 2 {
            (ChannelHeader::Out, Channel::Ch1)
        } else if k == 3 {
            (ChannelHeader::Vout, Channel::Ch2)
        } else if k == 4 {
            (ChannelHeader::Iout, Channel::Ch2)
        } else {
            (ChannelHeader::Out, Channel::Ch2)
        }
    };
    Query { header: h, channel: c }
}

/// One tick of the periodic query cycle: when no query is outstanding and
/// no command waits to be sent (`cmd_pending`), the next entry of the cycle
/// becomes the outstanding query and the cycle advances; otherwise nothing
/// changes.
pub fn ping(query: &mut Option<Query>, query_idx: &mut usize, cmd_pending: bool)
    requires
        *old(query_idx) < PING_LOOP_LEN,
    ensures
        *final(query_idx) < PING_LOOP_LEN,
        *old(query) is None && !cmd_pending ==> *final(query) == Some(
            ping_query(*old(query_idx) as int),
        ) && *final(query_idx) == (*old(query_idx) + 1) % (PING_LOOP_LEN as int),
        *old(query) is Some || cmd_pending ==> *final(query) == *old(query) && *final(query_idx)
            == *old(query_idx),
{
    if query.is_none() && !cmd_pending {
        *query = Some(ping_query_at(*query_idx));
        *query_idx = (*query_idx + 1) % PING_LOOP_LEN;
    }
}

/// Reading a query back from its text gives the query that was written.
pub proof fn lemma_query_round_trip(q: Query)
    ensures
        parse_query(query_text(q)) == Some(q),
{
    let s = query_text(q);
    assert(s.subrange(0, s.len() - 3) =~= header_text(q.header));
}

/// Two queries with the same text are the same query.
pub proof fn lemma_query_text_injective(q1: Query, q2: Query)
    requires
        query_text(q1) == query_text(q2),
    ensures
        q1 == q2,
{
    lemma_query_round_trip(q1);
    lemma_query_round_trip(q2);
}

} // verus!
