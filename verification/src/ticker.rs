//! A ticker: does some work every time a period has elapsed on the monotonic
//! clock, for a caller that polls it.

use crate::clock::duration_nanos;
use crate::clock::duration_of;
use crate::clock::instant_gap;
use crate::clock::nanos_of;
use crate::clock::MAX_SPAN_NANOS;
use crate::countdown::Countdown;
use crate::countdown::Phase;
use std::time::Duration;
use std::time::Instant;
use vstd::prelude::*;

verus! {

/// Encapsulates doing some work every time a period has elapsed.
///
/// The ticker schedules nothing by itself: its owner polls it with `tick`,
/// as often as it likes. Its state, seen as a `Phase`, is the period and the
/// time left, in nanoseconds; `reading` is the clock reading from which the
/// next poll measures.
pub struct Ticker {
    /// The clock reading of the previous poll, or of construction.
    last: Instant,
    countdown: Countdown,
}

impl View for Ticker {
    type V = Phase;

    closed spec fn view(&self) -> Phase {
        self.countdown@
    }
}

impl Ticker {
    #[verifier::type_invariant]
    spec fn inv(self) -> bool {
        self.countdown@.period <= MAX_SPAN_NANOS
    }

    /// The clock reading of the previous `tick`, or of construction: the
    /// point from which the next `tick` measures the elapsed time.
    pub closed spec fn reading(&self) -> Instant {
        self.last
    }

    /// A ticker that fires every `period`, counting from now. A period of
    /// zero is allowed: such a ticker fires on every poll.
    pub fn new(period: Duration) -> (ticker: Ticker)
        ensures
            ticker@ == Phase::fresh(duration_nanos(period)),
    {
        Ticker { last: Instant::now(), countdown: Countdown::new(nanos_of(&period)) }
    }

    /// Polls the ticker: runs `callback` if the period has elapsed, and
    /// returns the time left until the next firing.
    ///
    /// The clock is read once. The elapsed time is the time from the
    /// previous reading to the new one, and the new reading is kept, so that
    /// the next poll measures only what elapses from here on. Given that
    /// elapsed time, the poll does what `advance` does. Any poll may turn out
    /// to fire, so `callback` must be callable.
    pub fn tick<T: FnMut()>(&mut self, callback: T) -> (left: Duration)
        requires
            callback.requires(()),
        ensures
            final(self)@ == old(self)@.after(
                duration_nanos(instant_gap(final(self).reading(), old(self).reading())),
            ),
            old(self)@.fires(
                duration_nanos(instant_gap(final(self).reading(), old(self).reading())),
            ) ==> callback.ensures((), ()),
            duration_nanos(left) == final(self)@.remaining,
            final(self)@.wf(),
    {
        let elapsed = self.lap();
        self.advance(elapsed, callback)
    }

    /// Polls the ticker with a measurement of the caller's own: `elapsed` is
    /// taken as the time since the previous poll, and the clock is not read.
    ///
    /// If `elapsed` covers the time left, a whole period is left from here
    /// on, whatever the overshoot was, and `callback` runs once, after the
    /// state was reset. Otherwise `elapsed` is taken off the time left and
    /// `callback` is left alone: it need not even be callable then.
    /// Returns the time left until the next firing.
    pub fn advance<T: FnMut()>(&mut self, elapsed: Duration, mut callback: T) -> (left: Duration)
        requires
            old(self)@.fires(duration_nanos(elapsed)) ==> callback.requires(()),
        ensures
            final(self)@ == old(self)@.after(duration_nanos(elapsed)),
            old(self)@.fires(duration_nanos(elapsed)) ==> callback.ensures((), ()),
            duration_nanos(left) == final(self)@.remaining,
            final(self).reading() == old(self).reading(),
            final(self)@.wf(),
    {
        proof {
            use_type_invariant(&*self);
        }
        let fired = self.countdown.advance(nanos_of(&elapsed));
        if fired {
            callback();
        }
        duration_of(self.countdown.remaining())
    }

    /// Reads the clock, returns the time since the previous reading and
    /// keeps the new one, so that the next poll measures only what elapses
    /// from here on. The countdown is left as it was.
    fn lap(&mut self) -> (elapsed: Duration)
        ensures
            elapsed == instant_gap(final(self).last, old(self).last),
            final(self)@ == old(self)@,
    {
        proof {
            use_type_invariant(&*self);
        }
        let now = Instant::now();
        let elapsed = now.saturating_duration_since(self.last);
        self.last = now;
        elapsed
    }
}

} // verus!
