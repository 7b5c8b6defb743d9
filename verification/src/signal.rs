//! The button-press signal: a latest-value, wait-clears-on-read primitive.
//!
//! Any number of notifications before the waiter runs collapse into a
//! single wake-up; taking the signal clears it.

use vstd::prelude::*;

verus! {

/// A one-bit latch between the button monitor and the update task.
pub struct PressSignal {
    pub signaled: bool,
}

impl PressSignal {
    /// A fresh latch with no press recorded.
    pub fn new() -> (s: PressSignal)
        ensures
            !s.signaled,
    {
        PressSignal { signaled: false }
    }

    /// Records a press. Notifying an already-signaled latch leaves it
    /// signaled: repeated presses collapse into one wake-up.
    pub fn notify(&mut self)
        ensures
            *final(self) == (PressSignal { signaled: true }),
    {
        self.signaled = true;
    }

    /// Consumes the pending wake-up, if any, clearing the latch.
    pub fn try_take(&mut self) -> (was_signaled: bool)
        ensures
            was_signaled == old(self).signaled,
            !final(self).signaled,
    {
        let was: bool = self.signaled;
        self.signaled = false;
        was
    }
}

} // verus!
