use vstd::prelude::*;

verus! {

/// Core clock frequency, in Hz.
pub const SYS_FREQ: u32 = 72_000_000;

/// Cycle counter ticks per millisecond.
pub const SYS_CYCLES_PER_MILLISECOND: u32 = 72_000;

/// Cycle counter ticks per microsecond.
pub const SYS_CYCLES_PER_MICROSECOND: u32 = 72;

} // verus!
