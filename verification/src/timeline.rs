//! A countdown over a whole sequence of polls.
//!
//! A sequence of polls is a `Seq<nat>`: entry `k` is the time that poll `k`
//! observes since the poll before it (the first one, since the start). The
//! proof functions below state what the rule of `Phase::after` guarantees
//! over such sequences, and over single polls.

use crate::countdown::Phase;
use vstd::prelude::*;

verus! {

/// The time that a sequence of polls covers in all.
pub open spec fn total(polls: Seq<nat>) -> nat
    decreases polls.len(),
{
    if polls.len() == 0 {
        0
    } else {
        total(polls.drop_last()) + polls.last()
    }
}

impl Phase {
    /// The state after all of `polls`, made in order.
    pub open spec fn run(self, polls: Seq<nat>) -> Phase
        decreases polls.len(),
    {
        if polls.len() == 0 {
            self
        } else {
            self.run(polls.drop_last()).after(polls.last())
        }
    }

    /// How many of `polls`, made in order, fire.
    pub open spec fn fire_count(self, polls: Seq<nat>) -> nat
        decreases polls.len(),
    {
        if polls.len() == 0 {
            0
        } else {
            let earlier = self.fire_count(polls.drop_last());
            if self.run(polls.drop_last()).fires(polls.last()) {
                earlier + 1
            } else {
                earlier
            }
        }
    }
}

/// A prefix of a sequence of polls covers no more time than the whole.
pub proof fn lemma_total_prefix(polls: Seq<nat>, k: int)
    requires
        0 <= k <= polls.len(),
    ensures
        total(polls.take(k)) <= total(polls),
    decreases polls.len(),
{
    if k == polls.len() {
        assert(polls.take(k) == polls);
    } else {
        assert(polls.drop_last().take(k) == polls.take(k));
        lemma_total_prefix(polls.drop_last(), k);
    }
}

/// The time left stays within the period: one poll keeps a well-formed
/// state well-formed and leaves the period as it was.
pub proof fn lemma_after_keeps_bounds(phase: Phase, elapsed: nat)
    requires
        phase.wf(),
    ensures
        phase.after(elapsed).wf(),
        phase.after(elapsed).period == phase.period,
{
}

/// The time left stays within the period after any sequence of polls, and
/// the period never changes.
pub proof fn lemma_run_keeps_bounds(phase: Phase, polls: Seq<nat>)
    requires
        phase.wf(),
    ensures
        phase.run(polls).wf(),
        phase.run(polls).period == phase.period,
    decreases polls.len(),
{
    if polls.len() > 0 {
        lemma_run_keeps_bounds(phase, polls.drop_last());
    }
}

/// One poll fires at most once: the count of firings over a sequence of
/// polls never exceeds the number of polls.
pub proof fn lemma_at_most_one_fire_per_poll(phase: Phase, polls: Seq<nat>)
    ensures
        phase.fire_count(polls) <= polls.len(),
    decreases polls.len(),
{
    if polls.len() > 0 {
        lemma_at_most_one_fire_per_poll(phase, polls.drop_last());
    }
}

/// While the polls made since construction cover less than the period, none
/// of them fires, and the time left is the period less the time covered.
pub proof fn lemma_no_premature_fire(period: nat, polls: Seq<nat>)
    requires
        total(polls) < period,
    ensures
        Phase::fresh(period).fire_count(polls) == 0,
        Phase::fresh(period).run(polls).remaining == period - total(polls),
    decreases polls.len(),
{
    if polls.len() > 0 {
        lemma_no_premature_fire(period, polls.drop_last());
    }
}

/// The same, poll by poll: while the polls made since construction cover
/// less than the period, poll `k` does not fire, and the time left after it
/// is the period less the time covered up to and including it.
pub proof fn lemma_no_premature_fire_at(period: nat, polls: Seq<nat>, k: int)
    requires
        total(polls) < period,
        0 <= k < polls.len(),
    ensures
        !Phase::fresh(period).run(polls.take(k)).fires(polls[k]),
        Phase::fresh(period).run(polls.take(k + 1)).remaining == period - total(
            polls.take(k + 1),
        ),
{
    let upto = polls.take(k + 1);
    lemma_total_prefix(polls, k + 1);
    lemma_no_premature_fire(period, upto);
    assert(upto.drop_last() == polls.take(k));
    assert(upto.last() == polls[k]);
}

/// The first poll at which the time since construction reaches or exceeds
/// the period fires, and it is the only one so far to fire; it leaves a
/// whole period.
pub proof fn lemma_fires_at_boundary(period: nat, polls: Seq<nat>, elapsed: nat)
    requires
        total(polls) < period,
        total(polls) + elapsed >= period,
    ensures
        Phase::fresh(period).run(polls).fires(elapsed),
        Phase::fresh(period).run(polls.push(elapsed)) == Phase::fresh(period),
        Phase::fresh(period).fire_count(polls.push(elapsed)) == 1,
{
    let all = polls.push(elapsed);
    lemma_no_premature_fire(period, polls);
    lemma_run_keeps_bounds(Phase::fresh(period), polls);
    assert(all.drop_last() == polls);
    assert(all.last() == elapsed);
}

/// Right after a firing poll, a poll that observes less than the period
/// does not fire: of the two, only the first fires. It leaves the period
/// less what it observed, so with nothing elapsed between the two a whole
/// period is left. (With a period of zero no poll observes less, and both
/// fire.)
pub proof fn lemma_no_double_fire(phase: Phase, first: nat, second: nat)
    requires
        phase.wf(),
        phase.fires(first),
        second < phase.period,
    ensures
        !phase.after(first).fires(second),
        phase.after(first).after(second).remaining == phase.period - second,
        phase.fire_count(seq![first, second]) == 1,
{
    let polls = seq![first, second];
    assert(polls.drop_last() == seq![first]);
    assert(seq![first].drop_last() == Seq::<nat>::empty());
    reveal_with_fuel(Phase::run, 3);
    reveal_with_fuel(Phase::fire_count, 3);
}

/// An overshoot is not carried forward: a firing poll leaves a whole
/// period, however far the elapsed time went past what was left.
pub proof fn lemma_overshoot_dropped(phase: Phase, elapsed: nat)
    requires
        phase.fires(elapsed),
    ensures
        phase.after(elapsed) == Phase::fresh(phase.period),
{
}

/// A slow poller is not compensated. Where every poll comes a period or
/// more after the one before it, every poll fires once, however many
/// periods the gap covered, and each leaves a whole period.
pub proof fn lemma_no_catch_up(phase: Phase, polls: Seq<nat>)
    requires
        phase.wf(),
        forall|k: int| 0 <= k < polls.len() ==> polls[k] >= phase.period,
    ensures
        phase.fire_count(polls) == polls.len(),
        polls.len() > 0 ==> phase.run(polls) == Phase::fresh(phase.period),
    decreases polls.len(),
{
    if polls.len() > 0 {
        let front = polls.drop_last();
        lemma_no_catch_up(phase, front);
        lemma_run_keeps_bounds(phase, front);
    }
}

/// A poll that does not fire never adds to the time left: it takes off
/// exactly what elapsed, so the time left shrinks unless nothing elapsed,
/// and it stays above zero.
pub proof fn lemma_monotonic_decrease(phase: Phase, elapsed: nat)
    requires
        !phase.fires(elapsed),
    ensures
        phase.after(elapsed).remaining == phase.remaining - elapsed,
        phase.after(elapsed).remaining <= phase.remaining,
        elapsed > 0 ==> phase.after(elapsed).remaining < phase.remaining,
        phase.after(elapsed).remaining > 0,
{
}

/// With a period of zero every poll fires, whatever it observes, and
/// nothing is ever left.
pub proof fn lemma_zero_period_always_fires(polls: Seq<nat>)
    ensures
        Phase::fresh(0).fire_count(polls) == polls.len(),
        Phase::fresh(0).run(polls) == Phase::fresh(0),
        forall|elapsed: nat| #[trigger] Phase::fresh(0).fires(elapsed),
    decreases polls.len(),
{
    if polls.len() > 0 {
        lemma_zero_period_always_fires(polls.drop_last());
    }
}

} // verus!
