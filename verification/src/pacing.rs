use vstd::prelude::*;
use vstd::arithmetic::div_mod::{lemma_div_is_ordered, lemma_div_multiples_vanish, lemma_div_plus_one};

verus! {

/// Milliseconds of wall-clock time budgeted for one simulation tick: sixty
/// ticks per second, 1000 / 60 rounded down to whole milliseconds.
pub const TICK_TARGET_MS: i64 = 16;

/// The accumulator after one pacing step: credit grows by the target and
/// shrinks by the wall-clock time that the previous iteration spent.
pub open spec fn step_acc(acc: int, target: int, elapsed: int) -> int {
    acc + target - elapsed
}

/// The sleep prescribed for an accumulator value: sleep off any positive
/// credit, never a negative one.
pub open spec fn sleep_of(acc: int) -> int {
    if acc > 0 {
        acc
    } else {
        0
    }
}

/// The accumulator after feeding a whole sequence of elapsed-time samples,
/// oldest first, starting from zero credit.
pub open spec fn acc_after(target: int, elapsed: Seq<int>) -> int
    decreases elapsed.len(),
{
    if elapsed.len() == 0 {
        0
    } else {
        step_acc(acc_after(target, elapsed.drop_last()), target, elapsed.last())
    }
}

/// Total wall-clock time of a run: the sum of its elapsed-time samples.
pub open spec fn sum_of(s: Seq<int>) -> int
    decreases s.len(),
{
    if s.len() == 0 {
        0
    } else {
        sum_of(s.drop_last()) + s.last()
    }
}

/// One elapsed-time sample is responsive when it covers at least the sleep the
/// pacer prescribed before it and overruns that sleep by at most one target:
/// the loop body (tick, snapshot, publish) finishes within one tick budget and
/// the consumer never stalls the publish.
pub open spec fn responsive_sample(target: int, acc_before: int, elapsed: int) -> bool {
    sleep_of(acc_before) <= elapsed <= sleep_of(acc_before) + target
}

/// A whole run is responsive when every sample is, relative to the accumulator
/// the pacer had reached just before that sample.
pub open spec fn responsive(target: int, elapsed: Seq<int>) -> bool {
    forall|i: int|
        0 <= i < elapsed.len() ==> responsive_sample(
            target,
            acc_after(target, elapsed.take(i)),
            elapsed[i],
        )
}

/// Fixed-timestep pacing state for the tick scheduler: `accumulated` is the
/// signed sleep credit in milliseconds, deliberately unclamped, so a stalled
/// run skips sleeps but never runs more than one tick per loop iteration.
pub struct Pacer {
    pub accumulated: i64,
    pub target: i64,
}

impl Pacer {
    pub open spec fn wf(&self) -> bool {
        self.target >= 1
    }

    pub fn new(target: i64) -> (r: Pacer)
        requires
            target >= 1,
        ensures
            r.wf(),
            r.accumulated == 0,
            r.target == target,
    {
        Pacer { accumulated: 0, target }
    }

    /// One pacing step: charge the elapsed wall-clock milliseconds of the last
    /// loop iteration against the credit, grant one target of new credit, and
    /// return how long the scheduler must sleep before the next tick.
    pub fn step(&mut self, elapsed_ms: u64) -> (sleep_ms: u64)
        requires
            old(self).wf(),
            elapsed_ms <= i64::MAX,
            old(self).accumulated + old(self).target <= i64::MAX,
            old(self).accumulated + old(self).target - elapsed_ms >= i64::MIN,
        ensures
            final(self).wf(),
            final(self).target == old(self).target,
            final(self).accumulated == step_acc(
                old(self).accumulated as int,
                old(self).target as int,
                elapsed_ms as int,
            ),
            sleep_ms == sleep_of(final(self).accumulated as int),
    {
        self.accumulated = self.accumulated + self.target - (elapsed_ms as i64);
        if self.accumulated > 0 {
            self.accumulated as u64
        } else {
            0
        }
    }
}

/// Exact accounting: after any run, credit equals ticks-times-target minus the
/// wall-clock time spent, with one tick per sample.
pub proof fn lemma_acc_accounting(target: int, elapsed: Seq<int>)
    ensures
        acc_after(target, elapsed) == target * elapsed.len() - sum_of(elapsed),
    decreases elapsed.len(),
{
    if elapsed.len() > 0 {
        lemma_acc_accounting(target, elapsed.drop_last());
        assert(target * elapsed.len() == target * (elapsed.len() - 1) + target)
            by (nonlinear_arith);
    }
}

/// Under a responsive run the unclamped accumulator still stays within one
/// target of zero: the pacer neither builds up debt nor hoards credit.
pub proof fn lemma_acc_bounded(target: int, elapsed: Seq<int>)
    requires
        target >= 1,
        responsive(target, elapsed),
    ensures
        0 <= acc_after(target, elapsed) <= target,
    decreases elapsed.len(),
{
    if elapsed.len() > 0 {
        let n = elapsed.len() as int;
        let pre = elapsed.drop_last();
        assert forall|i: int| 0 <= i < pre.len() implies responsive_sample(
            target,
            acc_after(target, pre.take(i)),
            pre[i],
        ) by {
            assert(pre.take(i) == elapsed.take(i));
            assert(pre[i] == elapsed[i]);
        }
        lemma_acc_bounded(target, pre);
        assert(elapsed.take(n - 1) == pre);
        assert(responsive_sample(target, acc_after(target, pre), elapsed[n - 1]));
        assert(elapsed.last() == elapsed[n - 1]);
    }
}

/// Every responsive sample is nonnegative, so total wall-clock time is too.
pub proof fn lemma_sum_nonneg(target: int, elapsed: Seq<int>)
    requires
        target >= 1,
        responsive(target, elapsed),
    ensures
        sum_of(elapsed) >= 0,
    decreases elapsed.len(),
{
    if elapsed.len() > 0 {
        let n = elapsed.len() as int;
        let pre = elapsed.drop_last();
        assert forall|i: int| 0 <= i < pre.len() implies responsive_sample(
            target,
            acc_after(target, pre.take(i)),
            pre[i],
        ) by {
            assert(pre.take(i) == elapsed.take(i));
            assert(pre[i] == elapsed[i]);
        }
        lemma_sum_nonneg(target, pre);
        assert(responsive_sample(target, acc_after(target, elapsed.take(n - 1)), elapsed[n - 1]));
        assert(elapsed.last() == elapsed[n - 1]);
    }
}

/// Pacing law: over any responsive run of the fixed-timestep scheduler, the
/// number of executed ticks (one per loop iteration) after `T = sum_of(elapsed)`
/// milliseconds of wall-clock time is `T / target` rounded down, or one more:
/// simulated time tracks wall-clock time to within a single tick.
pub proof fn lemma_pacing_tick_count(target: int, elapsed: Seq<int>)
    requires
        target >= 1,
        responsive(target, elapsed),
    ensures
        sum_of(elapsed) <= target * elapsed.len() <= sum_of(elapsed) + target,
        sum_of(elapsed) / target <= elapsed.len() <= sum_of(elapsed) / target + 1,
{
    let n = elapsed.len() as int;
    let total = sum_of(elapsed);
    lemma_acc_accounting(target, elapsed);
    lemma_acc_bounded(target, elapsed);
    lemma_sum_nonneg(target, elapsed);
    assert(total <= target * n <= total + target);
    lemma_div_is_ordered(total, target * n, target);
    lemma_div_multiples_vanish(n, target);
    assert((target * n) / target == n);
    assert(total / target <= n);
    lemma_div_is_ordered(target * n, total + target, target);
    lemma_div_plus_one(total, target);
    assert(n <= (total + target) / target);
    assert((total + target) / target == total / target + 1);
}

} // verus!
