//! The background timer: it fires once its deadline has passed and is then
//! rearmed a full interval after the moment its tick was handled.
use vstd::prelude::*;

verus! {

/// The interval between background ticks, in milliseconds.
pub const DEFAULT_INTERVAL_MS: u64 = 15000;

/// A relative, drift-free timer on a millisecond clock.
#[derive(Debug, Clone, Copy, PartialEq, Eq, Structural)]
pub struct Timer {
    /// Milliseconds from the end of one tick to the next deadline.
    pub interval: u64,
    /// The instant at which the timer next fires.
    pub deadline: u64,
}

impl Timer {
    /// The timer as rearmed at instant `now`: one interval later, whatever the
    /// earlier deadline was.
    pub open spec fn rearmed(self, now: u64) -> Timer {
        Timer { interval: self.interval, deadline: (now + self.interval) as u64 }
    }

    /// A timer started at instant `now`.
    pub fn new(interval: u64, now: u64) -> (r: Timer)
        requires
            now + interval <= u64::MAX,
        ensures
            r.interval == interval,
            r.deadline == now + interval,
    {
        Timer { interval, deadline: now + interval }
    }

    /// Whether the timer has fired by instant `now`.
    pub fn is_due(&self, now: u64) -> (r: bool)
        ensures
            r == (now >= self.deadline),
    {
        now >= self.deadline
    }

    /// Milliseconds from `now` until the deadline; zero once it has passed.
    pub fn remaining(&self, now: u64) -> (r: u64)
        ensures
            now >= self.deadline ==> r == 0,
            now < self.deadline ==> r == self.deadline - now,
    {
        if now >= self.deadline {
            0
        } else {
            self.deadline - now
        }
    }

    /// Rearms the timer at instant `now`, the moment a tick was handled.
    pub fn rearm(&mut self, now: u64)
        requires
            now + old(self).interval <= u64::MAX,
        ensures
            *final(self) == old(self).rearmed(now),
            final(self).deadline == now + old(self).interval,
    {
        self.deadline = now + self.interval;
    }
}

/// After a tick handled at any instant `now`, however late against the old
/// schedule, the next deadline lies exactly one interval after `now`: it does
/// not depend on the earlier deadline, so slow ticks neither compound nor make
/// the timer fire again at once.
pub proof fn lemma_rearm_is_relative(a: Timer, b: Timer, now: u64)
    requires
        a.interval == b.interval,
        now + a.interval <= u64::MAX,
    ensures
        a.rearmed(now).deadline >= now + a.interval,
        a.rearmed(now) == b.rearmed(now),
        a.interval > 0 ==> now < a.rearmed(now).deadline,
{
}

} // verus!
