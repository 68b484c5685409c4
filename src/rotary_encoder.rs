//! Rotary encoder read through a hardware quadrature counter.

use vstd::prelude::*;

verus! {

/// The change of a 16-bit counter from `a` to `b`, as a signed 16-bit value:
/// the difference taken modulo 2^16.
pub open spec fn counter_delta(a: i16, b: i16) -> int {
    let d = b - a;
    if d > i16::MAX {
        d - 0x1_0000
    } else if d < i16::MIN {
        d + 0x1_0000
    } else {
        d
    }
}

/// Last counter value seen by the control loop.
#[derive(Clone, Copy, Debug, PartialEq, Eq, Structural)]
pub struct RotaryEncoder {
    pub count: i16,
}

impl RotaryEncoder {
    /// An encoder whose counter reads `count` now.
    pub fn new(count: i16) -> (r: RotaryEncoder)
        ensures
            r.count == count,
    {
        RotaryEncoder { count }
    }

    /// Steps since the last poll, given the counter's value `cnt` now; the
    /// value is kept for the next poll.
    pub fn poll(&mut self, cnt: i16) -> (r: i16)
        ensures
            r as int == counter_delta(old(self).count, cnt),
            final(self).count == cnt,
    {
        let diff = cnt.wrapping_sub(self.count);
        self.count = cnt;
        diff
    }
}

/// The delta of two readings undoes the counter's wrap: added to the first
/// reading it gives the second modulo 2^16, and it is the plain difference
/// whenever that fits in 16 bits.
pub proof fn lemma_counter_delta(a: i16, b: i16)
    ensures
        i16::MIN <= counter_delta(a, b) <= i16::MAX,
        (a + counter_delta(a, b) - b) % 0x1_0000 == 0,
        i16::MIN <= b - a <= i16::MAX ==> counter_delta(a, b) == b - a,
{
}

} // verus!
