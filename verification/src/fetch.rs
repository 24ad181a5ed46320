//! The transaction enricher's retry policy: a streamed event can reach the
//! pipeline before the RPC node has indexed its transaction, so one fetch
//! makes a bounded number of attempts with a fixed delay between them, stops
//! at the first success, and reports not-found only after the whole budget
//! is spent. The RPC call and the waiting happen outside the crate; the
//! state machine here makes every decision.

use crate::enrich::TransactionDetail;
use vstd::prelude::*;

verus! {

/// How many RPC attempts one fetch may make.
pub const FETCH_MAX_ATTEMPTS: u64 = 10;

/// The delay between two fetch attempts, in milliseconds.
pub const FETCH_RETRY_DELAY_MS: u64 = 500;

/// The retry budget and spacing of one fetch. Tests may run with a smaller
/// budget or near-zero delay.
#[derive(Debug, Clone, Copy, PartialEq, Eq, Structural)]
pub struct RetryPolicy {
    pub max_attempts: u64,
    pub delay_ms: u64,
}

impl RetryPolicy {
    /// The production policy: ten attempts, half a second apart.
    pub fn standard() -> (p: RetryPolicy)
        ensures
            p.max_attempts == FETCH_MAX_ATTEMPTS,
            p.delay_ms == FETCH_RETRY_DELAY_MS,
    {
        RetryPolicy { max_attempts: FETCH_MAX_ATTEMPTS, delay_ms: FETCH_RETRY_DELAY_MS }
    }
}

/// What the retry loop does after one attempt's outcome is recorded.
#[derive(Debug, Clone, PartialEq)]
pub enum FetchStep {
    /// The attempt returned the transaction: the fetch is over, with no
    /// further attempts.
    Found(TransactionDetail),
    /// The attempt failed and budget remains: wait this many milliseconds,
    /// then try again.
    RetryAfter(u64),
    /// The attempt failed and the budget is spent: report not found.
    GiveUp,
}

/// The retry loop's state: how many attempts the current fetch has made.
pub struct FetchState {
    pub policy: RetryPolicy,
    pub attempts: u64,
}

impl FetchState {
    /// Well-formed: at least one attempt allowed, count within budget.
    pub open spec fn wf(self) -> bool {
        1 <= self.policy.max_attempts && self.attempts <= self.policy.max_attempts
    }

    /// A fresh fetch under `policy`, no attempt made yet.
    pub fn new(policy: RetryPolicy) -> (s: FetchState)
        requires
            1 <= policy.max_attempts,
        ensures
            s.wf(),
            s.policy == policy,
            s.attempts == 0,
    {
        FetchState { policy, attempts: 0 }
    }

    /// Records one attempt's outcome and decides what follows: a success is
    /// final; a failure waits the policy's delay and retries while budget
    /// remains, and gives up exactly on the last attempt.
    pub fn record_attempt(&mut self, outcome: Option<TransactionDetail>) -> (step: FetchStep)
        requires
            old(self).wf(),
            old(self).attempts < old(self).policy.max_attempts,
        ensures
            final(self).wf(),
            final(self).policy == old(self).policy,
            final(self).attempts == old(self).attempts + 1,
            outcome matches Some(d) ==> step == FetchStep::Found(d),
            outcome is None && old(self).attempts + 1 < old(self).policy.max_attempts ==> step
                == FetchStep::RetryAfter(old(self).policy.delay_ms),
            outcome is None && old(self).attempts + 1 == old(self).policy.max_attempts ==> step
                == FetchStep::GiveUp,
    {
        self.attempts = self.attempts + 1;
        match outcome {
            Some(d) => FetchStep::Found(d),
            None => {
                if self.attempts < self.policy.max_attempts {
                    FetchStep::RetryAfter(self.policy.delay_ms)
                } else {
                    FetchStep::GiveUp
                }
            },
        }
    }
}

/// The result of a fetch that sees `outcomes` attempt by attempt with
/// `budget` attempts allowed: the first success, or nothing when the budget
/// is spent without one.
pub open spec fn fetch_result_spec(
    outcomes: Seq<Option<TransactionDetail>>,
    budget: int,
) -> Option<TransactionDetail>
    decreases budget,
{
    if budget <= 0 || outcomes.len() == 0 {
        None
    } else {
        match outcomes[0] {
            Some(d) => Some(d),
            None => fetch_result_spec(outcomes.drop_first(), budget - 1),
        }
    }
}

/// How many attempts that fetch makes: one per failure before the first
/// success, the successful attempt included, capped by the budget.
pub open spec fn attempts_spec(outcomes: Seq<Option<TransactionDetail>>, budget: int) -> int
    decreases budget,
{
    if budget <= 0 || outcomes.len() == 0 {
        0
    } else if outcomes[0] is Some {
        1
    } else {
        1 + attempts_spec(outcomes.drop_first(), budget - 1)
    }
}

/// Runs one fetch to completion against a pre-listed sequence of attempt
/// outcomes, driving the retry state machine exactly as the live loop does.
/// Returns what the fetch reports and the number of attempts it made.
pub fn fetch_from_outcomes(outcomes: Vec<Option<TransactionDetail>>, policy: RetryPolicy) -> (r: (
    Option<TransactionDetail>,
    u64,
))
    requires
        1 <= policy.max_attempts,
        outcomes@.len() >= policy.max_attempts,
    ensures
        r.0 == fetch_result_spec(outcomes@, policy.max_attempts as int),
        r.1 == attempts_spec(outcomes@, policy.max_attempts as int),
{
    let ghost orig: Seq<Option<TransactionDetail>> = outcomes@;
    let ghost max: int = policy.max_attempts as int;
    let mut rest = outcomes;
    let mut st = FetchState::new(policy);
    while st.attempts < policy.max_attempts
        invariant
            st.wf(),
            st.policy == policy,
            orig == outcomes@,
            max == policy.max_attempts as int,
            rest@.len() >= max - st.attempts,
            fetch_result_spec(orig, max) == fetch_result_spec(rest@, max - st.attempts),
            attempts_spec(orig, max) == st.attempts + attempts_spec(rest@, max - st.attempts),
        decreases max - st.attempts,
    {
        let ghost prev_rest: Seq<Option<TransactionDetail>> = rest@;
        let ghost prev_attempts: int = st.attempts as int;
        let outcome = rest.remove(0);
        assert(prev_rest.remove(0) =~= prev_rest.drop_first());
        match st.record_attempt(outcome) {
            FetchStep::Found(d) => {
                assert(fetch_result_spec(prev_rest, max - prev_attempts) == Some(d));
                assert(attempts_spec(prev_rest, max - prev_attempts) == 1);
                return (Some(d), st.attempts);
            },
            FetchStep::RetryAfter(_delay) => {
                assert(fetch_result_spec(prev_rest, max - prev_attempts) == fetch_result_spec(
                    prev_rest.drop_first(),
                    max - prev_attempts - 1,
                ));
                assert(attempts_spec(prev_rest, max - prev_attempts) == 1 + attempts_spec(
                    prev_rest.drop_first(),
                    max - prev_attempts - 1,
                ));
            },
            FetchStep::GiveUp => {
                assert(fetch_result_spec(prev_rest.drop_first(), max - prev_attempts - 1)
                    is None);
                assert(attempts_spec(prev_rest.drop_first(), max - prev_attempts - 1) == 0);
                assert(fetch_result_spec(prev_rest, max - prev_attempts) is None);
                assert(attempts_spec(prev_rest, max - prev_attempts) == 1);
                return (None, st.attempts);
            },
        }
    }
    (None, st.attempts)
}

/// Not-found is reported exactly when every budgeted attempt failed.
pub proof fn lemma_fetch_not_found_iff_all_fail(
    outcomes: Seq<Option<TransactionDetail>>,
    budget: int,
)
    requires
        0 <= budget <= outcomes.len(),
    ensures
        fetch_result_spec(outcomes, budget) is None <==> (forall|i: int|
            0 <= i < budget ==> outcomes[i] is None),
    decreases budget,
{
    if budget > 0 {
        if outcomes[0] is Some {
            assert(exists|i: int| 0 <= i < budget && outcomes[i] is Some);
        } else {
            lemma_fetch_not_found_iff_all_fail(outcomes.drop_first(), budget - 1);
            assert(forall|i: int|
                1 <= i < budget ==> outcomes[i] == outcomes.drop_first()[i - 1]);
        }
    }
}

/// A success on attempt `k` (counting from zero) ends the fetch with that
/// attempt's answer after exactly `k + 1` attempts: no further attempt is
/// made.
pub proof fn lemma_fetch_stops_at_first_success(
    outcomes: Seq<Option<TransactionDetail>>,
    budget: int,
    k: int,
)
    requires
        0 <= k < budget <= outcomes.len(),
        outcomes[k] is Some,
        forall|j: int| 0 <= j < k ==> outcomes[j] is None,
    ensures
        fetch_result_spec(outcomes, budget) == outcomes[k],
        attempts_spec(outcomes, budget) == k + 1,
    decreases k,
{
    if k > 0 {
        assert(forall|j: int| 0 <= j < k - 1 ==> outcomes.drop_first()[j] == outcomes[j + 1]);
        assert(outcomes.drop_first()[k - 1] == outcomes[k]);
        lemma_fetch_stops_at_first_success(outcomes.drop_first(), budget - 1, k - 1);
    }
}

} // verus!
