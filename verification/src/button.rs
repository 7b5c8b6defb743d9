//! The polled button monitor.
//!
//! The input pin is active-low behind a pull-up: a press shows as a
//! high-to-low transition between two consecutive polls. The monitor keeps
//! the last sampled level and reports a press exactly once per observed
//! falling edge, however fast the raw input oscillates between polls.

use vstd::prelude::*;

use crate::signal::PressSignal;

verus! {

/// The poll interval of the monitor task, in milliseconds: press latency
/// is bounded by it.
pub const POLL_INTERVAL_MILLIS: u64 = 50;

/// A press is an observed high-to-low transition.
pub open spec fn falling_edge(prev_high: bool, cur_high: bool) -> bool {
    prev_high && !cur_high
}

/// How many falling edges a sampled level sequence holds, starting from
/// the previously observed level `prev_high`.
pub open spec fn falling_edges(prev_high: bool, levels: Seq<bool>) -> nat
    decreases levels.len(),
{
    if levels.len() == 0 {
        0
    } else {
        (if falling_edge(prev_high, levels[0]) {
            1nat
        } else {
            0nat
        }) + falling_edges(levels[0], levels.skip(1))
    }
}

/// The debouncing state: the level seen at the previous poll.
pub struct ButtonMonitor {
    pub last_high: bool,
}

impl ButtonMonitor {
    /// Starts monitoring from the given initial pin level.
    pub fn new(initial_high: bool) -> (m: ButtonMonitor)
        ensures
            m.last_high == initial_high,
    {
        ButtonMonitor { last_high: initial_high }
    }

    /// Takes one poll sample. Reports a press exactly on a high-to-low
    /// transition and remembers the sampled level.
    pub fn sample(&mut self, level_high: bool) -> (pressed: bool)
        ensures
            pressed == falling_edge(old(self).last_high, level_high),
            final(self).last_high == level_high,
    {
        let pressed = self.last_high && !level_high;
        self.last_high = level_high;
        pressed
    }

    /// Takes one poll sample and latches the press signal on a falling
    /// edge, as the monitor task does each poll interval.
    pub fn poll(&mut self, level_high: bool, signal: &mut PressSignal)
        ensures
            final(self).last_high == level_high,
            final(signal).signaled == (old(signal).signaled || falling_edge(
                old(self).last_high,
                level_high,
            )),
    {
        let pressed = self.sample(level_high);
        if pressed {
            signal.notify();
        }
    }

    /// Runs the monitor over a whole sampled level sequence and counts the
    /// reported presses: exactly the falling edges of the sampled sequence,
    /// never more.
    pub fn count_presses(&mut self, levels: &[bool]) -> (n: usize)
        ensures
            n == falling_edges(old(self).last_high, levels@),
            n <= levels@.len(),
            final(self).last_high == if levels@.len() == 0 {
                old(self).last_high
            } else {
                levels@[levels@.len() - 1]
            },
    {
        let mut n: usize = 0;
        let mut i: usize = 0;
        proof {
            assert(levels@.skip(0) =~= levels@);
        }
        while i < levels.len()
            invariant
                i <= levels@.len(),
                n <= i,
                falling_edges(old(self).last_high, levels@) == n + falling_edges(
                    self.last_high,
                    levels@.skip(i as int),
                ),
                i > 0 ==> self.last_high == levels@[i - 1],
                i == 0 ==> self.last_high == old(self).last_high,
            decreases levels@.len() - i,
        {
            proof {
                assert(levels@.skip(i as int)[0] == levels@[i as int]);
                assert(levels@.skip(i as int).skip(1) =~= levels@.skip(i + 1));
            }
            let pressed = self.sample(levels[i]);
            if pressed {
                n = n + 1;
            }
            i = i + 1;
        }
        n
    }
}

} // verus!
