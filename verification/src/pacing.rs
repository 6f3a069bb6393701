//! Frame pacing: the loop runs at most one tick in each frame budget.

use vstd::prelude::*;

verus! {

/// The frame budget in nanoseconds: seventeen milliseconds, for about sixty
/// ticks a second.
pub const FRAME_NANOS: u64 = 17_000_000;

/// What is left of the frame budget once `elapsed_nanos` of it have passed,
/// and `None` once the budget is used up.
pub open spec fn frame_remainder(elapsed_nanos: u128) -> Option<u64> {
    if elapsed_nanos < FRAME_NANOS {
        Some((FRAME_NANOS - elapsed_nanos) as u64)
    } else {
        None
    }
}

/// How long the loop waits before it samples the input, in nanoseconds,
/// given the time since the previous tick: the rest of the frame budget
/// where less than the budget has passed, and `None` where the tick is due.
pub fn frame_wait(elapsed_nanos: u128) -> (wait: Option<u64>)
    ensures
        wait == frame_remainder(elapsed_nanos),
        wait matches Some(nanos) ==> 0 < nanos <= FRAME_NANOS && nanos + elapsed_nanos == FRAME_NANOS,
        wait is None <==> elapsed_nanos >= FRAME_NANOS,
{
    if elapsed_nanos < FRAME_NANOS as u128 {
        Some((FRAME_NANOS as u128 - elapsed_nanos) as u64)
    } else {
        None
    }
}

} // verus!
