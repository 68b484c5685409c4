//! Calibrated busy-wait delays.

use vstd::prelude::*;

use crate::consts::SYS_CYCLES_PER_MICROSECOND;

verus! {

/// A delay that spins the core for a number of clock cycles.
#[derive(Clone, Copy, Debug, PartialEq, Eq, Structural)]
pub struct AsmDelay {}

impl AsmDelay {
    /// Clock cycles to spin for a delay of `us` microseconds.
    pub fn cycles_for_us(&self, us: u32) -> (r: u32)
        requires
            us as int * SYS_CYCLES_PER_MICROSECOND <= u32::MAX,
        ensures
            r == us as int * SYS_CYCLES_PER_MICROSECOND,
    {
        SYS_CYCLES_PER_MICROSECOND * us
    }
}

} // verus!
