//! Properties of the token-bucket transition model.
//!
//! Each lemma states, over [`step_model`] and its companions, a guarantee the
//! throttle gives to its callers; the executable step is tied to the model by
//! the postcondition of [`Bucket::try_consume`].

use vstd::prelude::*;

use crate::bucket::Bucket;
use crate::bucket::cap;
use crate::bucket::elapsed;
use crate::bucket::need;
use crate::bucket::refilled;
use crate::bucket::set_rate_model;
use crate::bucket::step_model;
use crate::bucket::MAX_BALANCE;

verus! {

/// Setting the rate and then reading it gives back exactly the value that was
/// set, whatever the bucket held before.
pub proof fn lemma_set_rate_then_get(b: Bucket, rate: u64)
    ensures
        set_rate_model(b, rate).rate == rate,
{
}

/// With the rate at zero the limiter is bypassed: a request for any number of
/// bytes, however large, is granted by a single polling step, and no budget
/// is tracked or charged.
pub proof fn lemma_unlimited_grants_at_once(b: Bucket, bytes: usize, now_ms: u64)
    requires
        b.rate == 0,
    ensures
        step_model(b, bytes, now_ms) == (b, true),
{
}

/// Dropping the rate to zero unblocks every waiting request: the very next
/// polling step after the change grants it, leaving the state untouched.
pub proof fn lemma_rate_drop_unblocks(b: Bucket, bytes: usize, now_ms: u64)
    ensures
        step_model(set_rate_model(b, 0), bytes, now_ms) == (set_rate_model(b, 0), true),
{
}

/// A refill never leaves the balance negative or above the burst cap.
proof fn lemma_refilled_bounds(b: Bucket, now_ms: u64)
    requires
        b.rate > 0,
    ensures
        0 <= refilled(b, now_ms) <= cap(b.rate),
{
    assert(elapsed(b, now_ms) * b.rate >= 0) by (nonlinear_arith)
        requires
            elapsed(b, now_ms) >= 0,
            b.rate >= 0,
    ;
}

/// Token-bucket timing: with a positive rate and a request no larger than the
/// burst cap, a polling step grants the request exactly when the balance held
/// at the last refill plus the budget earned by the time elapsed since then
/// covers the request's cost. A grant can therefore come no sooner than the
/// moment the budget is earned, and no later than the first poll after it.
pub proof fn lemma_grant_iff_budget_earned(b: Bucket, bytes: usize, now_ms: u64)
    requires
        b.rate > 0,
        now_ms >= b.last_ms,
        need(bytes) <= cap(b.rate),
    ensures
        step_model(b, bytes, now_ms).1 <==> b.balance + (now_ms - b.last_ms) * b.rate >= need(
            bytes,
        ),
{
    lemma_refilled_bounds(b, now_ms);
}

/// No double-spend: starting from a full bucket, if two successive steps each
/// request one whole second's worth of bytes and both are granted, then at
/// least one second passed between the two grants; two such requests can
/// never both be served out of the same budget.
pub proof fn lemma_no_double_spend(b: Bucket, bytes: usize, t1: u64, t2: u64)
    requires
        b.rate > 0,
        bytes == b.rate,
        b.balance == cap(b.rate),
        b.last_ms <= t1 <= t2,
    ensures
        step_model(b, bytes, t1).1,
        step_model(step_model(b, bytes, t1).0, bytes, t2).1 ==> t2 - t1 >= 1000,
{
    lemma_refilled_bounds(b, t1);
    let b1 = step_model(b, bytes, t1).0;
    assert(b1.balance == 0);
    if step_model(b1, bytes, t2).1 {
        lemma_refilled_bounds(b1, t2);
        assert((t2 - t1) * b.rate >= need(bytes));
        assert(need(bytes) == b.rate * 1000);
        assert(t2 - t1 >= 1000) by (nonlinear_arith)
            requires
                (t2 - t1) * b.rate >= b.rate * 1000,
                b.rate > 0,
                t2 >= t1,
        ;
    }
}

/// The bucket and total granted cost after a whole run of polling steps, one
/// per `(bytes, now_ms)` request in order.
pub open spec fn run_steps(b: Bucket, reqs: Seq<(usize, u64)>) -> (Bucket, int)
    decreases reqs.len(),
{
    if reqs.len() == 0 {
        (b, 0)
    } else {
        let (b1, granted) = step_model(b, reqs[0].0, reqs[0].1);
        let (bn, total) = run_steps(b1, reqs.drop_first());
        (bn, total + if granted {
            need(reqs[0].0)
        } else {
            0
        })
    }
}

/// The requests' clock readings never run backwards, starting from the
/// bucket's last refill.
pub open spec fn times_ordered(b: Bucket, reqs: Seq<(usize, u64)>) -> bool {
    (reqs.len() > 0 ==> reqs[0].1 >= b.last_ms) && (forall|i: int|
        0 < i < reqs.len() ==> reqs[i - 1].1 <= #[trigger] reqs[i].1)
}

/// Aggregate throttling: over any run of polling steps under a fixed positive
/// rate, the total budget granted never exceeds what the bucket held at the
/// start plus what the elapsed wall-clock time earned at that rate. Since the
/// starting balance is at most the burst cap, the byte rate across all
/// transfers sharing the bucket can overshoot the configured rate by at most
/// one second's budget over any window.
pub proof fn lemma_no_overshoot(b: Bucket, reqs: Seq<(usize, u64)>)
    requires
        b.rate > 0,
        times_ordered(b, reqs),
    ensures
        run_steps(b, reqs).0.rate == b.rate,
        run_steps(b, reqs).0.last_ms == if reqs.len() == 0 {
            b.last_ms
        } else {
            reqs[reqs.len() - 1].1
        },
        run_steps(b, reqs).1 <= b.balance + (run_steps(b, reqs).0.last_ms - b.last_ms) * b.rate,
    decreases reqs.len(),
{
    if reqs.len() > 0 {
        let t0 = reqs[0].1;
        let (b1, granted) = step_model(b, reqs[0].0, reqs[0].1);
        lemma_refilled_bounds(b, t0);
        assert(refilled(b, t0) <= b.balance + (t0 - b.last_ms) * b.rate);
        assert(times_ordered(b1, reqs.drop_first())) by {
            assert(forall|i: int|
                0 < i < reqs.drop_first().len() ==> reqs.drop_first()[i - 1].1
                    <= #[trigger] reqs.drop_first()[i].1);
        }
        lemma_no_overshoot(b1, reqs.drop_first());
        let last = run_steps(b1, reqs.drop_first()).0.last_ms;
        assert((t0 - b.last_ms) * b.rate + (last - t0) * b.rate == (last - b.last_ms) * b.rate)
            by (nonlinear_arith);
    }
}

/// The balance is never negative, stays under the well-formedness bound, and,
/// with a positive rate, never ends a polling step above the burst cap of one
/// second's budget.
pub proof fn lemma_balance_bounded(b: Bucket, bytes: usize, now_ms: u64)
    requires
        b.wf(),
    ensures
        step_model(b, bytes, now_ms).0.wf(),
        step_model(b, bytes, now_ms).0.balance >= 0,
        b.rate > 0 ==> step_model(b, bytes, now_ms).0.balance <= cap(b.rate),
{
    if b.rate > 0 {
        lemma_refilled_bounds(b, now_ms);
        assert(cap(b.rate) <= MAX_BALANCE) by (nonlinear_arith)
            requires
                b.rate <= u64::MAX,
        ;
    }
}

} // verus!
