//! Decisions around the SD card driver.

use vstd::prelude::*;

verus! {

/// Attempts at bringing up the card before giving up.
pub const SD_INIT_TRIES: u32 = 100;

/// After an attempt at bringing up the card, with `tries_left` attempts
/// left: retry while the attempt failed and attempts remain, returning the
/// attempts then left; stop otherwise.
pub fn next_init_try(tries_left: u32, failed: bool) -> (r: Option<u32>)
    ensures
        failed && tries_left > 0 ==> r == Some((tries_left - 1) as u32),
        !(failed && tries_left > 0) ==> r is None,
{
    if failed && tries_left > 0 {
        Some(tries_left - 1)
    } else {
        None
    }
}

} // verus!
