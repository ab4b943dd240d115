//! Bounded polling of a hardware completion flag.
//!
//! A driver that waits for the hardware reads a register, tests a flag in
//! it, and either stops or waits and reads again, giving up after a fixed
//! number of reads. `Poll` makes that decision; the caller performs the
//! reads and the waits.

use vstd::prelude::*;

verus! {

/// What to do after one read of the polled register.
#[derive(Debug, Clone, Copy, PartialEq, Eq, Structural)]
pub enum PollStep {
    /// The flag is in the awaited state.
    Done,
    /// Not yet: wait and read again.
    Retry,
    /// Not yet, and no read is left: give up.
    TimedOut,
}

/// The number of reads a poll may still make.
pub struct Poll {
    pub left: u32,
}

impl Poll {
    /// A poll that makes at most `tries` reads.
    pub fn new(tries: u32) -> (p: Self)
        ensures
            p.left == tries,
    {
        Poll { left: tries }
    }

    /// Decides after a read whose flag test gave `ready`: a ready flag ends
    /// the poll; otherwise one read is used up, and the poll gives up when
    /// none is left.
    pub fn step(&mut self, ready: bool) -> (r: PollStep)
        requires
            old(self).left > 0,
        ensures
            ready ==> r == PollStep::Done && final(self).left == old(self).left,
            !ready ==> final(self).left == old(self).left - 1,
            !ready && old(self).left == 1 ==> r == PollStep::TimedOut,
            !ready && old(self).left > 1 ==> r == PollStep::Retry,
    {
        if ready {
            PollStep::Done
        } else {
            self.left = self.left - 1;
            if self.left == 0 {
                PollStep::TimedOut
            } else {
                PollStep::Retry
            }
        }
    }
}

} // verus!
