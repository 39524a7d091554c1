//! Adaptive retry delays for the polling pipeline.
//!
//! Every failed attempt doubles the wait, every success shrinks it to a
//! quarter; both directions are clamped to configured bounds so the wait
//! can neither vanish nor grow without limit.

use vstd::prelude::*;

verus! {

/// An exponential-backoff policy. The wait is measured in milliseconds,
/// but nothing here depends on the unit: the caller sleeps for
/// `current` between attempts and reports each outcome.
#[derive(Clone, Copy, Debug)]
pub struct Backoff {
    pub current: u64,
    pub floor: u64,
    pub ceiling: u64,
}

impl Backoff {
    /// The bounds are sane and the wait lies between them.
    pub open spec fn wf(self) -> bool {
        1 <= self.floor <= self.current <= self.ceiling
    }

    /// The wait a failure leads to: exactly double the prior wait,
    /// clamped to the ceiling.
    pub open spec fn doubled(self) -> u64 {
        if 2 * self.current <= self.ceiling {
            (2 * self.current) as u64
        } else {
            self.ceiling
        }
    }

    /// The wait a success leads to: exactly a quarter of the prior wait,
    /// clamped to the floor.
    pub open spec fn quartered(self) -> u64 {
        if self.current / 4 >= self.floor {
            self.current / 4
        } else {
            self.floor
        }
    }

    pub fn new(floor: u64, ceiling: u64) -> (r: Backoff)
        requires
            1 <= floor <= ceiling,
        ensures
            r.wf(),
            r.current == floor,
            r.floor == floor,
            r.ceiling == ceiling,
    {
        Backoff { current: floor, floor, ceiling }
    }

    /// The wait to use before the next attempt.
    pub fn current(&self) -> (r: u64)
        ensures
            r == self.current,
    {
        self.current
    }

    /// Record a failed attempt: the wait doubles, capped at the ceiling.
    pub fn on_failure(&mut self)
        requires
            old(self).wf(),
        ensures
            final(self).wf(),
            final(self).current == old(self).doubled(),
            final(self).floor == old(self).floor,
            final(self).ceiling == old(self).ceiling,
    {
        if self.current <= self.ceiling / 2 {
            self.current = self.current * 2;
        } else {
            self.current = self.ceiling;
        }
    }

    /// Record a successful attempt: the wait shrinks to a quarter,
    /// clamped to the floor.
    pub fn on_success(&mut self)
        requires
            old(self).wf(),
        ensures
            final(self).wf(),
            final(self).current == old(self).quartered(),
            final(self).floor == old(self).floor,
            final(self).ceiling == old(self).ceiling,
    {
        let quarter = self.current / 4;
        if quarter >= self.floor {
            self.current = quarter;
        } else {
            self.current = self.floor;
        }
    }
}

} // verus!
