//! A small desktop-productivity core: a pomodoro interval timer driven by
//! point-in-time queries, a keyed todo list, and a quotes/statistics helper.

use vstd::prelude::*;

mod clock;
pub mod timer;
pub mod quotes;
pub mod todo;

verus! {

/// Seconds elapsed from `start` to `now`, clamped to zero when the clock
/// has moved backwards.
pub open spec fn delta(now: u64, start: u64) -> u64 {
    if now >= start {
        (now - start) as u64
    } else {
        0
    }
}

/// Addition on `u64` that saturates instead of wrapping.
pub open spec fn sat_add(a: u64, b: u64) -> u64 {
    if a + b <= u64::MAX {
        (a + b) as u64
    } else {
        u64::MAX
    }
}

/// Executable counterpart of `delta`.
pub fn sub_clamped(now: u64, start: u64) -> (r: u64)
    ensures
        r == delta(now, start),
{
    if now >= start {
        now - start
    } else {
        0
    }
}

/// Executable counterpart of `sat_add`.
pub fn add_sat(a: u64, b: u64) -> (r: u64)
    ensures
        r == sat_add(a, b),
{
    if a <= u64::MAX - b {
        a + b
    } else {
        u64::MAX
    }
}

} // verus!

