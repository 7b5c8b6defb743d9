//! Stack-depth stress probe.
//!
//! A diagnostic used to exercise the platform's stack-overflow
//! detection: a chain of nested call frames, each bumping a shared
//! iteration counter once on the way down. The frame budget bounds the
//! chain so the probe itself stays within its contract.

use vstd::prelude::*;

verus! {

/// How many frames one probe run enters.
pub const PROBE_FRAMES: u32 = 64;

/// Enters `frames` nested call frames, bumping `counter` once per frame.
pub fn deadly_recursion(counter: &mut u32, frames: u32)
    requires
        *old(counter) + frames <= u32::MAX,
    ensures
        *final(counter) == *old(counter) + frames,
    decreases frames,
{
    if frames > 0 {
        *counter = *counter + 1;
        deadly_recursion(counter, frames - 1);
    }
}

/// Runs one stack probe: `PROBE_FRAMES` nested frames, counted.
pub fn boom(counter: &mut u32) -> (frames: u32)
    requires
        *old(counter) + PROBE_FRAMES <= u32::MAX,
    ensures
        frames == PROBE_FRAMES,
        *final(counter) == *old(counter) + PROBE_FRAMES,
{
    deadly_recursion(counter, PROBE_FRAMES);
    PROBE_FRAMES
}

} // verus!
