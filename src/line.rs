//! Line framing over a byte stream.

use vstd::prelude::*;

use crate::decimal::{
    decimal_milli, parse_decimal_milli, parse_unsigned_int, unsigned_int,
};
use crate::error::AppError;
use crate::buf::{
    buf_contents, buf_get, buf_len, buf_new, buf_push, ByteBuf, BUF_CAP,
};

verus! {

/// The line-feed byte that ends a line.
pub const LF: u8 = 10;

/// How many bytes of `d`, from index `i` on, one framing step takes when the
/// line buffer has room for `room` more bytes: it stops when the room is used
/// up, when `d` ends, or just after the first line feed.
pub open spec fn take_end(room: int, d: Seq<u8>, i: int) -> int
    decreases d.len() - i,
{
    if i >= d.len() || i >= room || i < 0 {
        i
    } else if d[i] == LF {
        i + 1
    } else {
        take_end(room, d, i + 1)
    }
}

/// Number of bytes one framing step moves from `d` into a line buffer that
/// holds `line_len` bytes.
pub open spec fn taken(line_len: int, d: Seq<u8>) -> int {
    take_end(BUF_CAP - line_len, d, 0)
}

/// Whether the framing step moves a line feed, which is then the last byte
/// moved.
pub open spec fn takes_eol(line_len: int, d: Seq<u8>) -> bool {
    let n = taken(line_len, d);
    n > 0 && d[n - 1] == LF
}

proof fn lemma_take_end_bounds(room: int, d: Seq<u8>, i: int)
    requires
        0 <= i,
    ensures
        i <= take_end(room, d, i),
        i <= room && i <= d.len() ==> take_end(room, d, i) <= room && take_end(room, d, i)
            <= d.len(),
        forall|k: int| i <= k < take_end(room, d, i) - 1 ==> d[k] != LF,
    decreases d.len() - i,
{
    if i >= d.len() || i >= room {
    } else if d[i] == LF {
    } else {
        lemma_take_end_bounds(room, d, i + 1);
    }
}

/// Moves bytes from the front of `data_buf` to the end of `line_buf` until
/// `line_buf` is full or a line feed has been moved; returns whether a line
/// feed was moved. The bytes moved leave `data_buf`, the rest keep their
/// order.
pub fn fill_until_eol(line_buf: &mut ByteBuf, data_buf: &mut ByteBuf) -> (found: bool)
    ensures
        ({
            let l = buf_contents(*old(line_buf));
            let d = buf_contents(*old(data_buf));
            let n = taken(l.len() as int, d);
            &&& buf_contents(*final(line_buf)) == l + d.subrange(0, n)
            &&& buf_contents(*final(data_buf)) == d.subrange(n, d.len() as int)
            &&& found == takes_eol(l.len() as int, d)
        }),
{
    let ghost l = buf_contents(*line_buf);
    let ghost d = buf_contents(*data_buf);
    let ghost room = BUF_CAP - l.len();
    let llen = buf_len(line_buf);
    let dlen = buf_len(data_buf);
    let mut found = false;
    let mut full = false;
    let mut n: usize = 0;
    while n < dlen && !found && !full
        invariant
            l == buf_contents(*old(line_buf)),
            d == buf_contents(*data_buf),
            d == buf_contents(*old(data_buf)),
            room == BUF_CAP - l.len(),
            0 <= room,
            dlen == d.len(),
            n <= dlen,
            n <= room,
            take_end(room, d, 0) == if found || full {
                n as int
            } else {
                take_end(room, d, n as int)
            },
            found ==> n > 0 && d[n - 1] == LF,
            !found ==> (n > 0 ==> d[n - 1] != LF),
            buf_contents(*line_buf) == l + d.subrange(0, n as int),
        decreases dlen - n + (if found || full { 0int } else { 1int }),
    {
        let b = buf_get(data_buf, n);
        let ok = buf_push(line_buf, b);
        if !ok {
            assert(take_end(room, d, n as int) == n);
            full = true;
        } else {
            assert(n < room);
            assert(b == LF ==> take_end(room, d, n as int) == n + 1);
            assert(b != LF ==> take_end(room, d, n as int) == take_end(room, d, n + 1));
            n = n + 1;
            assert(buf_contents(*line_buf) =~= l + d.subrange(0, n as int));
            if b == LF {
                found = true;
            }
        }
    }
    proof {
        lemma_take_end_bounds(room, d, 0);
        if !found && !full {
            assert(take_end(room, d, n as int) == n);
        }
        assert(n as int == take_end(room, d, 0));
    }
    let mut rest = buf_new();
    let mut i: usize = n;
    while i < dlen
        invariant
            d == buf_contents(*data_buf),
            dlen == d.len(),
            dlen <= BUF_CAP,
            n <= i <= dlen,
            buf_contents(rest) == d.subrange(n as int, i as int),
        decreases dlen - i,
    {
        let ok = buf_push(&mut rest, buf_get(data_buf, i));
        assert(ok);
        i = i + 1;
        assert(buf_contents(rest) =~= d.subrange(n as int, i as int));
    }
    *data_buf = rest;
    found
}

/// ASCII whitespace: space, tab, line feed, form feed, carriage return.
pub open spec fn is_ws(b: u8) -> bool {
    b == 32 || b == 9 || b == 10 || b == 12 || b == 13
}

/// `s` with every ASCII whitespace byte removed.
pub open spec fn strip_ws(s: Seq<u8>) -> Seq<u8>
    decreases s.len(),
{
    if s.len() == 0 {
        Seq::<u8>::empty()
    } else if is_ws(s.last()) {
        strip_ws(s.drop_last())
    } else {
        strip_ws(s.drop_last()).push(s.last())
    }
}

/// The bytes of a line with all ASCII whitespace removed.
pub fn strip_whitespace(line: &ByteBuf) -> (r: Vec<u8>)
    ensures
        r@ == strip_ws(buf_contents(*line)),
{
    let ghost s = buf_contents(*line);
    let n = buf_len(line);
    let mut r: Vec<u8> = Vec::new();
    let mut i: usize = 0;
    while i < n
        invariant
            n == s.len(),
            s == buf_contents(*line),
            i <= n,
            r@ == strip_ws(s.subrange(0, i as int)),
        decreases n - i,
    {
        let b = buf_get(line, i);
        if !(b == 32 || b == 9 || b == 10 || b == 12 || b == 13) {
            r.push(b);
        }
        assert(s.subrange(0, i + 1).drop_last() =~= s.subrange(0, i as int));
        i = i + 1;
    }
    assert(s.subrange(0, n as int) =~= s);
    r
}

/// Reads a line as a decimal number of thousandths, whitespace ignored.
pub fn parse_milli(line: &ByteBuf) -> (r: Result<i64, AppError>)
    ensures
        match decimal_milli(strip_ws(buf_contents(*line))) {
            Some(v) => r == Ok::<i64, AppError>(v as i64) && -1_000_000_000_000 < v
                < 1_000_000_000_000,
            None => r == Err::<i64, AppError>(AppError::ParseError),
        },
{
    let s = strip_whitespace(line);
    match parse_decimal_milli(&s) {
        Some(v) => Ok(v),
        None => Err(AppError::ParseError),
    }
}

/// Reads a line as an unsigned integer, whitespace ignored; any value but
/// zero means `true`.
pub fn parse_flag(line: &ByteBuf) -> (r: Result<bool, AppError>)
    ensures
        match unsigned_int(strip_ws(buf_contents(*line))) {
            Some(v) => r == Ok::<bool, AppError>(v != 0),
            None => r == Err::<bool, AppError>(AppError::ParseError),
        },
{
    let s = strip_whitespace(line);
    match parse_unsigned_int(&s) {
        Some(v) => Ok(v != 0),
        None => Err(AppError::ParseError),
    }
}

/// One framing step neither loses nor duplicates a byte: the line buffer
/// followed by the staging buffer holds the same bytes, in the same order,
/// before and after the step.
pub proof fn lemma_fill_conserves_bytes(l: Seq<u8>, d: Seq<u8>)
    requires
        l.len() <= BUF_CAP,
    ensures
        0 <= taken(l.len() as int, d) <= d.len(),
        (l + d.subrange(0, taken(l.len() as int, d))) + d.subrange(
            taken(l.len() as int, d),
            d.len() as int,
        ) == l + d,
{
    lemma_take_end_bounds(BUF_CAP - l.len(), d, 0);
    let n = taken(l.len() as int, d);
    assert((l + d.subrange(0, n)) + d.subrange(n, d.len() as int) =~= l + d);
}

/// When the next line of the stream fits in the room left in the line
/// buffer, one framing step reports a complete line and moves exactly that
/// line, line feed included.
pub proof fn lemma_fill_takes_whole_line(l: Seq<u8>, d: Seq<u8>, k: int)
    requires
        l.len() <= BUF_CAP,
        0 <= k < d.len(),
        d[k] == LF,
        forall|j: int| 0 <= j < k ==> d[j] != LF,
        l.len() + k + 1 <= BUF_CAP,
    ensures
        taken(l.len() as int, d) == k + 1,
        takes_eol(l.len() as int, d),
{
    let room = BUF_CAP - l.len();
    assert forall|i: int| 0 <= i <= k implies take_end(room, d, i) == k + 1 by {
        lemma_take_end_from(room, d, k, i);
    }
}

proof fn lemma_take_end_from(room: int, d: Seq<u8>, k: int, i: int)
    requires
        0 <= i <= k < d.len(),
        k < room,
        d[k] == LF,
        forall|j: int| 0 <= j < k ==> d[j] != LF,
    ensures
        take_end(room, d, i) == k + 1,
    decreases k - i,
{
    if i < k {
        lemma_take_end_from(room, d, k, i + 1);
    }
}

/// A framing step that reports no complete line moved no line feed, and
/// stopped only because the staging buffer ran empty or the line buffer
/// filled up.
pub proof fn lemma_fill_without_eol(l: Seq<u8>, d: Seq<u8>)
    requires
        l.len() <= BUF_CAP,
        !takes_eol(l.len() as int, d),
    ensures
        forall|j: int| 0 <= j < taken(l.len() as int, d) ==> d[j] != LF,
        taken(l.len() as int, d) == d.len() || l.len() + taken(l.len() as int, d) == BUF_CAP,
{
    lemma_take_end_no_eol(BUF_CAP - l.len(), d, 0);
}

proof fn lemma_take_end_no_eol(room: int, d: Seq<u8>, i: int)
    requires
        0 <= i <= room,
        i <= d.len(),
        !(take_end(room, d, i) > 0 && d[take_end(room, d, i) - 1] == LF),
    ensures
        forall|j: int| i <= j < take_end(room, d, i) ==> d[j] != LF,
        take_end(room, d, i) == d.len() || take_end(room, d, i) == room,
    decreases d.len() - i,
{
    if i >= d.len() || i >= room {
    } else if d[i] == LF {
    } else {
        lemma_take_end_no_eol(room, d, i + 1);
    }
}

/// Whether `s` holds no line feed.
pub open spec fn no_lf(s: Seq<u8>) -> bool {
    forall|i: int| 0 <= i < s.len() ==> s[i] != LF
}

/// Whether `s` is one complete line: a line feed at the end and nowhere
/// else.
pub open spec fn is_line(s: Seq<u8>) -> bool {
    s.len() > 0 && s.last() == LF && no_lf(s.drop_last())
}

/// `k` framing steps from line buffer `l` and staging bytes `d`, the line
/// buffer cleared after each step that completes a line: the completed
/// lines, in order, then the line buffer and the staging bytes at the end.
pub open spec fn frame_steps(l: Seq<u8>, d: Seq<u8>, k: nat) -> (Seq<Seq<u8>>, Seq<u8>, Seq<u8>)
    decreases k,
{
    if k == 0 {
        (Seq::<Seq<u8>>::empty(), l, d)
    } else {
        let n = taken(l.len() as int, d);
        let l1 = l + d.subrange(0, n);
        let d1 = d.subrange(n, d.len() as int);
        if takes_eol(l.len() as int, d) {
            let r = frame_steps(Seq::<u8>::empty(), d1, (k - 1) as nat);
            (seq![l1] + r.0, r.1, r.2)
        } else {
            frame_steps(l1, d1, (k - 1) as nat)
        }
    }
}

/// Framing a stream step by step, clearing the line buffer after each
/// complete line, hands out complete lines only, in stream order: the lines
/// handed out, then the partial line, then the bytes still staged, are the
/// stream itself, with no byte lost or repeated.
pub proof fn lemma_framing_run(l: Seq<u8>, d: Seq<u8>, k: nat)
    requires
        l.len() <= BUF_CAP,
        no_lf(l),
    ensures
        ({
            let r = frame_steps(l, d, k);
            &&& r.0.flatten() + r.1 + r.2 == l + d
            &&& forall|i: int| 0 <= i < r.0.len() ==> is_line(#[trigger] r.0[i])
            &&& no_lf(r.1)
            &&& r.1.len() <= BUF_CAP
        }),
    decreases k,
{
    if k > 0 {
        let n = taken(l.len() as int, d);
        let l1 = l + d.subrange(0, n);
        let d1 = d.subrange(n, d.len() as int);
        lemma_fill_conserves_bytes(l, d);
        lemma_take_end_bounds(BUF_CAP - l.len(), d, 0);
        if takes_eol(l.len() as int, d) {
            lemma_framing_run(Seq::<u8>::empty(), d1, (k - 1) as nat);
            let r = frame_steps(Seq::<u8>::empty(), d1, (k - 1) as nat);
            let ls = seq![l1] + r.0;
            assert(ls.first() == l1);
            assert(ls.drop_first() =~= r.0);
            assert(ls.flatten() == l1 + r.0.flatten());
            assert(l1.drop_last() =~= l + d.subrange(0, n - 1));
            assert(is_line(l1));
            assert forall|i: int| 0 <= i < ls.len() implies is_line(#[trigger] ls[i]) by {
                if i > 0 {
                    assert(ls[i] == r.0[i - 1]);
                }
            }
            assert(Seq::<u8>::empty() + d1 =~= d1);
            assert(ls.flatten() + r.1 + r.2 =~= l1 + (r.0.flatten() + r.1 + r.2));
            assert(l1 + d1 =~= l + d);
        } else {
            lemma_fill_without_eol(l, d);
            assert(no_lf(l1));
            lemma_framing_run(l1, d1, (k - 1) as nat);
            assert(l1 + d1 =~= l + d);
        }
    }
}

/// Framing steps taken as the stream arrives in pieces: before each step the
/// next piece of `chunks` joins the staging bytes, and the line buffer is
/// cleared after each step that completes a line. Gives the completed lines,
/// in order, then the line buffer and the staging bytes at the end.
pub open spec fn frame_chunks(l: Seq<u8>, d: Seq<u8>, chunks: Seq<Seq<u8>>) -> (
    Seq<Seq<u8>>,
    Seq<u8>,
    Seq<u8>,
)
    decreases chunks.len(),
{
    if chunks.len() == 0 {
        (Seq::<Seq<u8>>::empty(), l, d)
    } else {
        let d0 = d + chunks[0];
        let n = taken(l.len() as int, d0);
        let l1 = l + d0.subrange(0, n);
        let d1 = d0.subrange(n, d0.len() as int);
        if takes_eol(l.len() as int, d0) {
            let r = frame_chunks(Seq::<u8>::empty(), d1, chunks.drop_first());
            (seq![l1] + r.0, r.1, r.2)
        } else {
            frame_chunks(l1, d1, chunks.drop_first())
        }
    }
}

/// Framing a stream that arrives in pieces, one piece before each step,
/// hands out complete lines only, in stream order: the lines handed out,
/// then the partial line, then the bytes still staged, are the bytes at the
/// start followed by every piece, with no byte lost or repeated.
pub proof fn lemma_framing_chunks(l: Seq<u8>, d: Seq<u8>, chunks: Seq<Seq<u8>>)
    requires
        l.len() <= BUF_CAP,
        no_lf(l),
    ensures
        ({
            let r = frame_chunks(l, d, chunks);
            &&& r.0.flatten() + r.1 + r.2 == l + d + chunks.flatten()
            &&& forall|i: int| 0 <= i < r.0.len() ==> is_line(#[trigger] r.0[i])
            &&& no_lf(r.1)
            &&& r.1.len() <= BUF_CAP
        }),
    decreases chunks.len(),
{
    if chunks.len() == 0 {
        assert(l + d + chunks.flatten() =~= l + d);
    } else {
        let d0 = d + chunks[0];
        let n = taken(l.len() as int, d0);
        let l1 = l + d0.subrange(0, n);
        let d1 = d0.subrange(n, d0.len() as int);
        let rest = chunks.drop_first();
        lemma_fill_conserves_bytes(l, d0);
        lemma_take_end_bounds(BUF_CAP - l.len(), d0, 0);
        assert(chunks.flatten() == chunks.first() + rest.flatten());
        assert(l + d + chunks.flatten() =~= (l1 + d1) + rest.flatten()) by {
            assert(l + d0 =~= l1 + d1);
        }
        if takes_eol(l.len() as int, d0) {
            lemma_framing_chunks(Seq::<u8>::empty(), d1, rest);
            let r = frame_chunks(Seq::<u8>::empty(), d1, rest);
            let ls = seq![l1] + r.0;
            assert(ls.first() == l1);
            assert(ls.drop_first() =~= r.0);
            assert(ls.flatten() == l1 + r.0.flatten());
            assert(l1.drop_last() =~= l + d0.subrange(0, n - 1));
            assert(is_line(l1));
            assert forall|i: int| 0 <= i < ls.len() implies is_line(#[trigger] ls[i]) by {
                if i > 0 {
                    assert(ls[i] == r.0[i - 1]);
                }
            }
            assert(Seq::<u8>::empty() + d1 =~= d1);
            assert(ls.flatten() + r.1 + r.2 =~= l1 + (r.0.flatten() + r.1 + r.2));
            assert(Seq::<u8>::empty() + d1 + rest.flatten() =~= d1 + rest.flatten());
            assert((l1 + d1) + rest.flatten() =~= l1 + (d1 + rest.flatten()));
        } else {
            lemma_fill_without_eol(l, d0);
            assert(no_lf(l1));
            lemma_framing_chunks(l1, d1, rest);
            assert((l1 + d1) + rest.flatten() =~= l1 + d1 + rest.flatten());
        }
    }
}

} // verus!
