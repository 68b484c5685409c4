//! Fixed-point decimal text: readings and setpoints are held as integers in
//! thousandths of a volt or an ampere, and written with three decimals.

use vstd::prelude::*;

use crate::buf::{buf_append, buf_contents, ByteBuf, BUF_CAP};

verus! {

/// The byte `'.'`.
pub const DOT: u8 = 46;

/// The byte `'-'`.
pub const MINUS: u8 = 45;

/// The byte `'+'`.
pub const PLUS: u8 = 43;

/// The byte `'0'`.
pub const ZERO: u8 = 48;

/// Most digits accepted before the decimal point.
pub const MAX_INT_DIGITS: usize = 9;

pub open spec fn is_digit(b: u8) -> bool {
    ZERO <= b <= 57
}

pub open spec fn all_digits(s: Seq<u8>) -> bool {
    forall|i: int| 0 <= i < s.len() ==> is_digit(#[trigger] s[i])
}

/// The number that a string of decimal digits denotes.
pub open spec fn digits_value(s: Seq<u8>) -> nat
    decreases s.len(),
{
    if s.len() == 0 {
        0
    } else {
        digits_value(s.drop_last()) * 10 + (s.last() - ZERO) as nat
    }
}

pub open spec fn pow10(n: nat) -> nat
    decreases n,
{
    if n == 0 {
        1
    } else {
        10 * pow10((n - 1) as nat)
    }
}

/// Index of the first `b` in `s` at or after `i`, or the length of `s`.
pub open spec fn index_from(s: Seq<u8>, b: u8, i: int) -> int
    decreases s.len() - i,
{
    if i < 0 || i >= s.len() {
        s.len() as int
    } else if s[i] == b {
        i
    } else {
        index_from(s, b, i + 1)
    }
}

/// Thousandths given by the digits after the decimal point; digits past the
/// third are dropped.
pub open spec fn frac_milli(f: Seq<u8>) -> nat {
    if f.len() >= 3 {
        digits_value(f.subrange(0, 3))
    } else if f.len() == 2 {
        digits_value(f) * 10
    } else if f.len() == 1 {
        digits_value(f) * 100
    } else {
        0
    }
}

/// Thousandths denoted by an unsigned decimal `digits[.digits]`, with at least
/// one digit and at most [`MAX_INT_DIGITS`] before the point.
pub open spec fn unsigned_milli(u: Seq<u8>) -> Option<int> {
    let k = index_from(u, DOT, 0);
    let ip = u.subrange(0, k);
    let fp = if k < u.len() {
        u.subrange(k + 1, u.len() as int)
    } else {
        Seq::<u8>::empty()
    };
    if all_digits(ip) && all_digits(fp) && ip.len() + fp.len() > 0 && ip.len()
        <= MAX_INT_DIGITS {
        Some((digits_value(ip) * 1000 + frac_milli(fp)) as int)
    } else {
        None
    }
}

pub open spec fn has_sign(s: Seq<u8>) -> bool {
    s.len() > 0 && (s[0] == MINUS || s[0] == PLUS)
}

/// Thousandths denoted by a decimal with an optional sign.
pub open spec fn decimal_milli(s: Seq<u8>) -> Option<int> {
    if has_sign(s) {
        match unsigned_milli(s.drop_first()) {
            Some(v) => Some(if s[0] == MINUS {
                -v
            } else {
                v
            }),
            None => None,
        }
    } else {
        unsigned_milli(s)
    }
}

/// The value of a non-empty run of at most [`MAX_INT_DIGITS`] digits.
pub open spec fn unsigned_int(s: Seq<u8>) -> Option<nat> {
    if all_digits(s) && 0 < s.len() <= MAX_INT_DIGITS {
        Some(digits_value(s))
    } else {
        None
    }
}

/// Decimal digits of `n`, without leading zeros.
pub open spec fn nat_digits(n: nat) -> Seq<u8>
    decreases n,
{
    if n < 10 {
        seq![(ZERO + n) as u8]
    } else {
        nat_digits(n / 10).push((ZERO + n % 10) as u8)
    }
}

/// `v` thousandths written with three decimals, as `{:.3}` writes them.
pub open spec fn milli_text(v: int) -> Seq<u8> {
    let a = if v < 0 {
        -v
    } else {
        v
    };
    let f = a % 1000;
    (if v < 0 {
        seq![MINUS]
    } else {
        Seq::<u8>::empty()
    }) + nat_digits((a / 1000) as nat) + seq![
        DOT,
        (ZERO + f / 100) as u8,
        (ZERO + (f / 10) % 10) as u8,
        (ZERO + f % 10) as u8,
    ]
}

proof fn lemma_pow10_values()
    ensures
        pow10(1) == 10,
        pow10(2) == 100,
        pow10(3) == 1000,
        pow10(9) == 1_000_000_000,
        pow10(10) == 10_000_000_000,
{
    reveal_with_fuel(pow10, 11);
}

proof fn lemma_pow10_mono(a: nat, b: nat)
    requires
        a <= b,
    ensures
        pow10(a) <= pow10(b),
    decreases b,
{
    if a < b {
        lemma_pow10_mono(a, (b - 1) as nat);
    }
}

/// Whether `s[from..to]` holds digits only.
fn digits_in(s: &Vec<u8>, from: usize, to: usize) -> (r: bool)
    requires
        from <= to <= s@.len(),
    ensures
        r == all_digits(s@.subrange(from as int, to as int)),
{
    let mut i = from;
    while i < to
        invariant
            from <= i <= to <= s@.len(),
            all_digits(s@.subrange(from as int, i as int)),
        decreases to - i,
    {
        if !(ZERO <= s[i] && s[i] <= 57) {
            assert(!is_digit(s@.subrange(from as int, to as int)[i - from]));
            return false;
        }
        i = i + 1;
        assert(forall|j: int|
            0 <= j < i - from ==> s@.subrange(from as int, i as int)[j] == s@.subrange(
                from as int,
                (i - 1) as int,
            )[j] || j == i - 1 - from);
    }
    true
}

/// The value of the digits `s[from..to]`.
fn value_in(s: &Vec<u8>, from: usize, to: usize) -> (r: u64)
    requires
        from <= to <= s@.len(),
        to - from <= MAX_INT_DIGITS,
        all_digits(s@.subrange(from as int, to as int)),
    ensures
        r == digits_value(s@.subrange(from as int, to as int)),
        r < pow10((to - from) as nat),
{
    let mut v: u64 = 0;
    let mut i = from;
    proof {
        lemma_pow10_mono((to - from) as nat, 9);
        lemma_pow10_values();
    }
    while i < to
        invariant
            from <= i <= to <= s@.len(),
            to - from <= MAX_INT_DIGITS,
            all_digits(s@.subrange(from as int, to as int)),
            pow10((to - from) as nat) <= 1_000_000_000,
            v == digits_value(s@.subrange(from as int, i as int)),
            v < pow10((i - from) as nat),
        decreases to - i,
    {
        let ghost old_sub = s@.subrange(from as int, i as int);
        assert(is_digit(s@.subrange(from as int, to as int)[i - from]));
        let d = s[i] - ZERO;
        proof {
            lemma_pow10_mono((i + 1 - from) as nat, (to - from) as nat);
        }
        v = v * 10 + d as u64;
        i = i + 1;
        assert(s@.subrange(from as int, i as int).drop_last() =~= old_sub);
    }
    v
}

/// Copies `s[from..]` into a new vector.
fn tail_from(s: &Vec<u8>, from: usize) -> (r: Vec<u8>)
    requires
        from <= s@.len(),
    ensures
        r@ == s@.subrange(from as int, s@.len() as int),
{
    let mut r: Vec<u8> = Vec::new();
    let mut i = from;
    while i < s.len()
        invariant
            from <= i <= s@.len(),
            r@ == s@.subrange(from as int, i as int),
        decreases s@.len() - i,
    {
        r.push(s[i]);
        i = i + 1;
        assert(r@ =~= s@.subrange(from as int, i as int));
    }
    r
}

/// Index of the first `b` in `s`, or the length of `s`.
fn find_byte(s: &Vec<u8>, b: u8) -> (r: usize)
    ensures
        r == index_from(s@, b, 0),
        r <= s@.len(),
{
    let mut i: usize = 0;
    while i < s.len()
        invariant
            i <= s@.len(),
            index_from(s@, b, 0) == index_from(s@, b, i as int),
        decreases s@.len() - i,
    {
        if s[i] == b {
            return i;
        }
        i = i + 1;
    }
    i
}

/// Parses an unsigned decimal into thousandths.
fn parse_unsigned_milli(u: &Vec<u8>) -> (r: Option<i64>)
    ensures
        match unsigned_milli(u@) {
            Some(v) => r == Some(v as i64) && 0 <= v < 1_000_000_000_000,
            None => r is None,
        },
{
    let k = find_byte(u, DOT);
    let ulen = u.len();
    let fstart = if k < ulen {
        k + 1
    } else {
        ulen
    };
    let ghost ip = u@.subrange(0, k as int);
    let ghost fp = if k < ulen {
        u@.subrange(k + 1, ulen as int)
    } else {
        Seq::<u8>::empty()
    };
    assert(fp =~= u@.subrange(fstart as int, ulen as int));
    if !digits_in(u, 0, k) || !digits_in(u, fstart, ulen) || k + (ulen - fstart) == 0 || k
        > MAX_INT_DIGITS {
        return None;
    }
    proof {
        lemma_pow10_values();
    }
    let iv = value_in(u, 0, k);
    let flen = ulen - fstart;
    let fv: u64 = if flen >= 3 {
        assert(u@.subrange(fstart as int, fstart + 3) =~= fp.subrange(0, 3));
        value_in(u, fstart, fstart + 3)
    } else if flen == 2 {
        value_in(u, fstart, ulen) * 10
    } else if flen == 1 {
        value_in(u, fstart, ulen) * 100
    } else {
        0
    };
    proof {
        lemma_pow10_mono(k as nat, 9);
        lemma_pow10_values();
        assert(fv == frac_milli(fp));
        assert(fv < 1000);
    }
    Some((iv * 1000 + fv) as i64)
}

/// Parses a decimal with an optional sign into thousandths.
pub fn parse_decimal_milli(s: &Vec<u8>) -> (r: Option<i64>)
    ensures
        match decimal_milli(s@) {
            Some(v) => r == Some(v as i64) && -1_000_000_000_000 < v < 1_000_000_000_000,
            None => r is None,
        },
{
    if s.len() > 0 && (s[0] == MINUS || s[0] == PLUS) {
        let u = tail_from(s, 1);
        assert(u@ =~= s@.drop_first());
        match parse_unsigned_milli(&u) {
            Some(v) => {
                if s[0] == MINUS {
                    Some(-v)
                } else {
                    Some(v)
                }
            },
            None => None,
        }
    } else {
        parse_unsigned_milli(s)
    }
}

/// Parses a non-empty run of at most [`MAX_INT_DIGITS`] digits.
pub fn parse_unsigned_int(s: &Vec<u8>) -> (r: Option<u32>)
    ensures
        match unsigned_int(s@) {
            Some(v) => r == Some(v as u32) && v < 1_000_000_000,
            None => r is None,
        },
{
    let n = s.len();
    if n == 0 || n > MAX_INT_DIGITS || !digits_in(s, 0, n) {
        assert(s@.subrange(0, n as int) =~= s@);
        return None;
    }
    assert(s@.subrange(0, n as int) =~= s@);
    let v = value_in(s, 0, n);
    proof {
        lemma_pow10_mono(n as nat, 9);
        lemma_pow10_values();
    }
    Some(v as u32)
}

/// At most `k` digits write a number below `10^k`.
pub proof fn lemma_nat_digits_len(n: nat, k: nat)
    requires
        1 <= k,
        n < pow10(k),
    ensures
        nat_digits(n).len() <= k,
    decreases n,
{
    lemma_pow10_values();
    if n >= 10 {
        if k == 1 {
            assert(false);
        }
        let p = pow10((k - 1) as nat);
        assert(pow10(k) == 10 * p);
        assert(n / 10 < p) by (nonlinear_arith)
            requires
                n < 10 * p,
        ;
        lemma_nat_digits_len(n / 10, (k - 1) as nat);
    }
}

/// The text of a value of at most `10^12` thousandths takes at most 15
/// bytes.
pub proof fn lemma_milli_text_len(v: int)
    requires
        -1_000_000_000_000 <= v <= 1_000_000_000_000,
    ensures
        milli_text(v).len() <= 15,
{
    lemma_pow10_values();
    let a = if v < 0 {
        -v
    } else {
        v
    };
    lemma_nat_digits_len((a / 1000) as nat, 10);
}

/// Appends the decimal digits of `n` to a buffer with room for them.
pub fn push_nat_digits(out: &mut ByteBuf, n: u64)
    requires
        buf_contents(*old(out)).len() + nat_digits(n as nat).len() <= BUF_CAP,
    ensures
        buf_contents(*final(out)) == buf_contents(*old(out)) + nat_digits(n as nat),
    decreases n,
{
    if n >= 10 {
        assert(nat_digits(n as nat) == nat_digits((n / 10) as nat).push((ZERO + n % 10) as u8));
        push_nat_digits(out, n / 10);
    }
    buf_append(out, ZERO + (n % 10) as u8);
    assert(buf_contents(*out) =~= buf_contents(*old(out)) + nat_digits(n as nat));
}

/// Appends `v` thousandths written with three decimals to a buffer with room
/// for them.
pub fn push_milli(out: &mut ByteBuf, v: i64)
    requires
        v > i64::MIN,
        buf_contents(*old(out)).len() + milli_text(v as int).len() <= BUF_CAP,
    ensures
        buf_contents(*final(out)) == buf_contents(*old(out)) + milli_text(v as int),
{
    let ghost start = buf_contents(*out);
    let a: u64 = if v < 0 {
        (-v) as u64
    } else {
        v as u64
    };
    if v < 0 {
        buf_append(out, MINUS);
    }
    push_nat_digits(out, a / 1000);
    let f = a % 1000;
    buf_append(out, DOT);
    buf_append(out, ZERO + (f / 100) as u8);
    buf_append(out, ZERO + ((f / 10) % 10) as u8);
    buf_append(out, ZERO + (f % 10) as u8);
    assert(buf_contents(*out) =~= start + milli_text(v as int));
}

} // verus!
