use ps_gpib::buf::{buf_from_slice, buf_to_vec, ByteBuf, BUF_CAP};
use ps_gpib::decimal::{parse_decimal_milli, parse_unsigned_int, push_milli};
use ps_gpib::error::AppError;
use ps_gpib::sdcard::{next_init_try, SD_INIT_TRIES};
use ps_gpib::line::{fill_until_eol, parse_flag, parse_milli, strip_whitespace};

fn frame_all(chunks: &[&[u8]]) -> (Vec<Vec<u8>>, Vec<u8>) {
    let mut line: ByteBuf = ByteBuf::new();
    let mut lines: Vec<Vec<u8>> = Vec::new();
    for chunk in chunks {
        let mut staging = buf_from_slice(chunk);
        loop {
            let before = staging.len();
            let found = fill_until_eol(&mut line, &mut staging);
            if found {
                lines.push(buf_to_vec(&line));
                line.clear();
            } else if staging.len() == before {
                break;
            }
        }
    }
    (lines, buf_to_vec(&line))
}

#[test]
fn framing_reproduces_lines_in_order() {
    let (lines, rest) = frame_all(&[b"AB\nC", b"D\nEF\n", b"G"]);
    assert_eq!(lines, vec![b"AB\n".to_vec(), b"CD\n".to_vec(), b"EF\n".to_vec()]);
    assert_eq!(rest, b"G".to_vec());
}

#[test]
fn framing_keeps_rest_of_burst_in_staging() {
    let mut line = ByteBuf::new();
    let mut staging = buf_from_slice(b"one\ntwo\n");
    assert!(fill_until_eol(&mut line, &mut staging));
    assert_eq!(buf_to_vec(&line), b"one\n".to_vec());
    assert_eq!(buf_to_vec(&staging), b"two\n".to_vec());
}

#[test]
fn framing_without_line_feed_moves_everything() {
    let mut line = buf_from_slice(b"ab");
    let mut staging = buf_from_slice(b"cd");
    assert!(!fill_until_eol(&mut line, &mut staging));
    assert_eq!(buf_to_vec(&line), b"abcd".to_vec());
    assert_eq!(staging.len(), 0);
}

#[test]
fn framing_stalls_when_line_buffer_full() {
    let long = vec![b'x'; BUF_CAP];
    let mut line = buf_from_slice(&long);
    let mut staging = buf_from_slice(b"y\n");
    assert!(!fill_until_eol(&mut line, &mut staging));
    assert_eq!(line.len(), BUF_CAP);
    assert_eq!(buf_to_vec(&staging), b"y\n".to_vec());
}

#[test]
fn framing_overlong_line_loses_content() {
    let mut data = vec![b'x'; 70];
    data.push(b'\n');
    let mut line = ByteBuf::new();
    let mut staging = buf_from_slice(&data[0..60]);
    assert!(!fill_until_eol(&mut line, &mut staging));
    let mut staging = buf_from_slice(&data[60..]);
    assert!(!fill_until_eol(&mut line, &mut staging));
    assert_eq!(line.len(), BUF_CAP);
    assert_eq!(staging.len(), 7);
}

#[test]
fn empty_staging_moves_nothing() {
    let mut line = buf_from_slice(b"q");
    let mut staging = ByteBuf::new();
    assert!(!fill_until_eol(&mut line, &mut staging));
    assert_eq!(buf_to_vec(&line), b"q".to_vec());
}

#[test]
fn buffer_push_refuses_when_full() {
    let mut b = buf_from_slice(&vec![1u8; BUF_CAP]);
    assert!(!b.push(2).is_ok());
    assert_eq!(b.len(), BUF_CAP);
    let mut e = ByteBuf::new();
    assert!(e.push(7).is_ok());
    assert_eq!(buf_to_vec(&e), vec![7u8]);
}

#[test]
fn strip_whitespace_removes_all_ascii_space() {
    let b = buf_from_slice(b" 5 .0\t0\r\n");
    assert_eq!(strip_whitespace(&b), b"5.00".to_vec());
}

#[test]
fn parse_milli_reads_decimals() {
    assert_eq!(parse_milli(&buf_from_slice(b"5.000\r\n")), Ok(5000));
    assert_eq!(parse_milli(&buf_from_slice(b"-1.5")), Ok(-1500));
    assert_eq!(parse_milli(&buf_from_slice(b"+12")), Ok(12000));
    assert_eq!(parse_milli(&buf_from_slice(b".25")), Ok(250));
    assert_eq!(parse_milli(&buf_from_slice(b"1.23456")), Ok(1234));
    assert_eq!(parse_milli(&buf_from_slice(b"3.")), Ok(3000));
}

#[test]
fn parse_milli_rejects_garbage() {
    assert_eq!(parse_milli(&buf_from_slice(b"abc")), Err(AppError::ParseError));
    assert_eq!(parse_milli(&buf_from_slice(b"1.2.3")), Err(AppError::ParseError));
    assert_eq!(parse_milli(&buf_from_slice(b"")), Err(AppError::ParseError));
    assert_eq!(parse_milli(&buf_from_slice(b".")), Err(AppError::ParseError));
    assert_eq!(parse_milli(&buf_from_slice(b"-")), Err(AppError::ParseError));
    assert_eq!(parse_milli(&buf_from_slice(b"1234567890")), Err(AppError::ParseError));
}

#[test]
fn parse_flag_reads_integers() {
    assert_eq!(parse_flag(&buf_from_slice(b"1\r\n")), Ok(true));
    assert_eq!(parse_flag(&buf_from_slice(b"0")), Ok(false));
    assert_eq!(parse_flag(&buf_from_slice(b"1.0")), Err(AppError::ParseError));
}

#[test]
fn decimal_helpers() {
    assert_eq!(parse_decimal_milli(&b"20.5".to_vec()), Some(20500));
    assert_eq!(parse_unsigned_int(&b"42".to_vec()), Some(42));
    assert_eq!(parse_unsigned_int(&b"".to_vec()), None);
    let mut out = ByteBuf::new();
    push_milli(&mut out, -5);
    assert_eq!(buf_to_vec(&out), b"-0.005".to_vec());
    let mut out = ByteBuf::new();
    push_milli(&mut out, 12345);
    assert_eq!(buf_to_vec(&out), b"12.345".to_vec());
}

#[test]
fn buffer_round_trips_through_vec() {
    let b = buf_from_slice(b"xyz");
    assert_eq!(buf_to_vec(&b), b"xyz".to_vec());
    let long = vec![3u8; 100];
    assert_eq!(buf_to_vec(&buf_from_slice(&long)).len(), BUF_CAP);
}

#[test]
fn sd_init_retries_while_failing() {
    assert_eq!(next_init_try(SD_INIT_TRIES, true), Some(99));
    assert_eq!(next_init_try(0, true), None);
    assert_eq!(next_init_try(5, false), None);
}
