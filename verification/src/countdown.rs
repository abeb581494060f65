//! The countdown at the heart of a ticker, on plain integers.
//!
//! A countdown knows nothing of clocks. Whoever polls it says how many
//! nanoseconds went by since the previous poll, and the countdown answers
//! whether the period has run out. `Phase` is its mathematical state, and
//! every contract in this crate is stated over `Phase::fires` and
//! `Phase::after`.

use vstd::prelude::*;

verus! {

/// The mathematical state of a countdown: the fixed period and the time left
/// before the next firing, both in nanoseconds.
pub struct Phase {
    pub period: nat,
    pub remaining: nat,
}

impl Phase {
    /// The time left never exceeds the period.
    pub open spec fn wf(self) -> bool {
        self.remaining <= self.period
    }

    /// The state right after construction, and right after every firing: a
    /// whole period is left.
    pub open spec fn fresh(period: nat) -> Phase {
        Phase { period, remaining: period }
    }

    /// Whether a poll that observes `elapsed` nanoseconds since the previous
    /// poll fires: the elapsed time covers what was left.
    pub open spec fn fires(self, elapsed: nat) -> bool {
        elapsed >= self.remaining
    }

    /// The state after a poll that observes `elapsed` nanoseconds. A firing
    /// poll starts a whole new period, whatever the overshoot was; any other
    /// poll takes the elapsed time off what was left.
    pub open spec fn after(self, elapsed: nat) -> Phase {
        if self.fires(elapsed) {
            Phase::fresh(self.period)
        } else {
            Phase { period: self.period, remaining: (self.remaining - elapsed) as nat }
        }
    }
}

/// A countdown over a fixed period, in nanoseconds.
pub struct Countdown {
    period: u128,
    remaining: u128,
}

impl View for Countdown {
    type V = Phase;

    closed spec fn view(&self) -> Phase {
        Phase { period: self.period as nat, remaining: self.remaining as nat }
    }
}

impl Countdown {
    #[verifier::type_invariant]
    spec fn inv(self) -> bool {
        self.remaining <= self.period
    }

    /// A countdown with a whole `period` left. A period of zero is allowed:
    /// such a countdown fires on every poll.
    pub fn new(period: u128) -> (countdown: Countdown)
        ensures
            countdown@ == Phase::fresh(period as nat),
    {
        Countdown { period, remaining: period }
    }

    /// Polls the countdown, `elapsed` nanoseconds after the previous poll (or
    /// after construction), and says whether the period has run out. If it
    /// has, a whole period is left again; otherwise `elapsed` is taken off
    /// what was left.
    pub fn advance(&mut self, elapsed: u128) -> (fired: bool)
        ensures
            fired == old(self)@.fires(elapsed as nat),
            final(self)@ == old(self)@.after(elapsed as nat),
            final(self)@.wf(),
        no_unwind
    {
        proof {
            use_type_invariant(&*self);
        }
        if elapsed >= self.remaining {
            self.remaining = self.period;
            true
        } else {
            self.remaining = self.remaining - elapsed;
            false
        }
    }

    /// The nanoseconds left before the next firing.
    pub fn remaining(&self) -> (left: u128)
        ensures
            left == self@.remaining,
            self@.wf(),
    {
        proof {
            use_type_invariant(self);
        }
        self.remaining
    }

    /// The period, in nanoseconds.
    pub fn period(&self) -> (period: u128)
        ensures
            period == self@.period,
            self@.wf(),
    {
        proof {
            use_type_invariant(self);
        }
        self.period
    }
}

} // verus!
