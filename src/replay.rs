//! Running the retry engine against outcomes and decisions given in advance,
//! and what such a run comes to.

use crate::error::{spec_retries_of, Error};
use crate::request::Request;
use crate::response::Response;
use crate::retry::{spec_annotate, spec_give_up, RetryDecision, RetryExecutor, Step};
use crate::retryable::Retryable;
use crate::strategy::RetryableStrategy;
use vstd::prelude::*;

verus! {

/// How a run of the retry engine ends.
#[derive(Debug)]
pub enum Replay {
    /// The request could not be duplicated; nothing was sent.
    NotCloneable,
    /// The call ended after `sends` attempts with `result`, having made
    /// `retries` retries.
    Finished { sends: usize, result: Result<Response, Error>, retries: u32 },
    /// The outcomes or the decisions ran out before the call ended.
    Unfinished,
}

/// `c` with `k` more attempts sent before it.
pub open spec fn spec_after_sends(c: Replay, k: nat) -> Replay {
    match c {
        Replay::Finished { sends, result, retries } => Replay::Finished {
            sends: (sends + k) as usize,
            result,
            retries,
        },
        _ => c,
    }
}

/// What a logical request comes to when each attempt's outcome is taken from
/// `outcomes` and each consultation of the policy from `decisions`, with
/// `attempts` retries made already.
pub open spec fn spec_replay<S: RetryableStrategy>(
    strategy: S,
    replayable: bool,
    outcomes: Seq<Result<Response, Error>>,
    decisions: Seq<RetryDecision>,
    attempts: u32,
) -> Replay
    decreases outcomes.len(),
{
    if !replayable {
        Replay::NotCloneable
    } else if outcomes.len() == 0 {
        Replay::Unfinished
    } else if strategy.classify(outcomes[0]) != Some(Retryable::Transient) {
        Replay::Finished { sends: 1, result: spec_annotate(outcomes[0], attempts), retries: attempts }
    } else if decisions.len() == 0 {
        Replay::Unfinished
    } else {
        match decisions[0] {
            RetryDecision::DoNotRetry => Replay::Finished {
                sends: 1,
                result: spec_give_up(outcomes[0], attempts),
                retries: attempts,
            },
            RetryDecision::Retry { .. } => if attempts == u32::MAX {
                Replay::Unfinished
            } else {
                spec_after_sends(
                    spec_replay(
                        strategy,
                        replayable,
                        outcomes.drop_first(),
                        decisions.drop_first(),
                        (attempts + 1) as u32,
                    ),
                    1,
                )
            },
        }
    }
}

/// A finished run sends at least one attempt and at most one per outcome.
pub proof fn lemma_replay_sends<S: RetryableStrategy>(
    strategy: S,
    replayable: bool,
    outcomes: Seq<Result<Response, Error>>,
    decisions: Seq<RetryDecision>,
    attempts: u32,
)
    requires
        outcomes.len() <= usize::MAX,
    ensures
        spec_replay(strategy, replayable, outcomes, decisions, attempts) matches Replay::Finished {
            sends,
            ..
        } ==> 1 <= sends <= outcomes.len(),
    decreases outcomes.len(),
{
    if replayable && outcomes.len() > 0 && decisions.len() > 0 && attempts < u32::MAX {
        lemma_replay_sends(
            strategy,
            replayable,
            outcomes.drop_first(),
            decisions.drop_first(),
            (attempts + 1) as u32,
        );
    }
}

/// Runs a logical request through the retry engine, taking the outcome of
/// each attempt from `outcomes` and each decision of the policy from
/// `decisions`, in order, as a driver with a scripted transport and policy
/// and a virtual clock would.
pub fn replay<S: RetryableStrategy>(
    request: Request,
    strategy: &S,
    outcomes: Vec<Result<Response, Error>>,
    decisions: Vec<RetryDecision>,
) -> (r: Replay)
    ensures
        r == spec_replay(*strategy, request.spec_is_replayable(), outcomes@, decisions@, 0),
{
    let ghost replayable = request.spec_is_replayable();
    let ghost goal = spec_replay(*strategy, replayable, outcomes@, decisions@, 0);
    let mut ex = RetryExecutor::new(request, strategy);
    let mut outcomes_left = outcomes;
    let mut decisions_left = decisions;
    let mut sends: usize = 0;
    let total: usize = outcomes_left.len();
    loop
        invariant
            goal == spec_replay(*strategy, request.spec_is_replayable(), outcomes@, decisions@, 0),
            replayable == request.spec_is_replayable(),
            ex@.pending is None,
            ex@.request.spec_is_replayable() == replayable,
            ex@.strategy == *strategy,
            sends + outcomes_left@.len() == total,
            goal == spec_after_sends(
                spec_replay(*strategy, replayable, outcomes_left@, decisions_left@, ex@.attempts_so_far),
                sends as nat,
            ),
        decreases outcomes_left@.len(),
    {
        match ex.start_attempt() {
            Step::Send(_duplicate) => {
                if outcomes_left.len() == 0 {
                    return Replay::Unfinished;
                }
                let ghost rest_outcomes = outcomes_left@;
                let ghost rest_decisions = decisions_left@;
                let outcome = outcomes_left.remove(0);
                assert(outcomes_left@ =~= rest_outcomes.drop_first());
                sends = sends + 1;
                match ex.on_outcome(outcome) {
                    Step::Finish { result, retries } => {
                        return Replay::Finished { sends, result, retries };
                    },
                    _ => {},
                }
                if decisions_left.len() == 0 {
                    return Replay::Unfinished;
                }
                let decision = decisions_left.remove(0);
                assert(decisions_left@ =~= rest_decisions.drop_first());
                match decision {
                    RetryDecision::Retry { .. } => {
                        if ex.attempts_so_far() == u32::MAX {
                            return Replay::Unfinished;
                        }
                    },
                    RetryDecision::DoNotRetry => {},
                }
                match ex.on_decision(decision, 0) {
                    Step::Finish { result, retries } => {
                        return Replay::Finished { sends, result, retries };
                    },
                    _ => {},
                }
                proof {
                    lemma_replay_sends(
                        *strategy,
                        replayable,
                        outcomes_left@,
                        decisions_left@,
                        ex@.attempts_so_far,
                    );
                }
            },
            _ => {
                return Replay::NotCloneable;
            },
        }
    }
}

} // verus!

verus! {

proof fn lemma_transient_run<S: RetryableStrategy>(
    strategy: S,
    outcomes: Seq<Result<Response, Error>>,
    decisions: Seq<RetryDecision>,
    n: nat,
    attempts: u32,
)
    requires
        outcomes.len() == n + 1,
        outcomes.len() <= usize::MAX,
        attempts + n <= u32::MAX,
        forall|i: int| 0 <= i < n ==> strategy.classify(#[trigger] outcomes[i]) == Some(
            Retryable::Transient,
        ),
        outcomes[n as int] is Ok,
        strategy.classify(outcomes[n as int]) != Some(Retryable::Transient),
        decisions.len() >= n,
        forall|i: int| 0 <= i < n ==> #[trigger] decisions[i] is Retry,
    ensures
        spec_replay(strategy, true, outcomes, decisions, attempts) == (Replay::Finished {
            sends: (n + 1) as usize,
            result: outcomes[n as int],
            retries: (attempts + n) as u32,
        }),
    decreases n,
{
    if n > 0 {
        let rest = outcomes.drop_first();
        let rest_decisions = decisions.drop_first();
        assert forall|i: int| 0 <= i < (n - 1) as nat implies strategy.classify(#[trigger] rest[i])
            == Some(Retryable::Transient) by {
            assert(rest[i] == outcomes[i + 1]);
        }
        assert forall|i: int| 0 <= i < (n - 1) as nat implies #[trigger] rest_decisions[i] is Retry by {
            assert(rest_decisions[i] == decisions[i + 1]);
        }
        assert(rest[(n - 1) as int] == outcomes[n as int]);
        assert(strategy.classify(outcomes[0]) == Some(Retryable::Transient));
        assert(decisions[0] is Retry);
        lemma_transient_run(strategy, rest, rest_decisions, (n - 1) as nat, (attempts + 1) as u32);
    }
}

/// Attempt counting: when the first `n` attempts end in outcomes that the
/// strategy finds transient, the policy allows a retry after each of them,
/// and the next attempt succeeds, the call sends exactly `n + 1` attempts and
/// ends with that success, having made `n` retries.
pub proof fn lemma_attempt_counting<S: RetryableStrategy>(
    strategy: S,
    outcomes: Seq<Result<Response, Error>>,
    decisions: Seq<RetryDecision>,
    n: nat,
)
    requires
        outcomes.len() == n + 1,
        outcomes.len() <= usize::MAX,
        n <= u32::MAX,
        forall|i: int| 0 <= i < n ==> strategy.classify(#[trigger] outcomes[i]) == Some(
            Retryable::Transient,
        ),
        outcomes[n as int] is Ok,
        strategy.classify(outcomes[n as int]) != Some(Retryable::Transient),
        decisions.len() >= n,
        forall|i: int| 0 <= i < n ==> #[trigger] decisions[i] is Retry,
    ensures
        spec_replay(strategy, true, outcomes, decisions, 0) == (Replay::Finished {
            sends: (n + 1) as usize,
            result: outcomes[n as int],
            retries: n as u32,
        }),
{
    lemma_transient_run(strategy, outcomes, decisions, n, 0);
}

/// Giving up: when the first outcome is transient and the policy's first
/// decision is not to retry, the call sends exactly one attempt and ends with
/// a plain error, not wrapped with a count of retries: the error itself, or
/// for a response the error that carries its status.
pub proof fn lemma_give_up_first<S: RetryableStrategy>(
    strategy: S,
    outcomes: Seq<Result<Response, Error>>,
    decisions: Seq<RetryDecision>,
)
    requires
        outcomes.len() >= 1,
        strategy.classify(outcomes[0]) == Some(Retryable::Transient),
        decisions.len() >= 1,
        decisions[0] == RetryDecision::DoNotRetry,
    ensures
        spec_replay(strategy, true, outcomes, decisions, 0) == (Replay::Finished {
            sends: 1,
            result: match outcomes[0] {
                Ok(r) => Err(Error::Status(r@.status)),
                Err(e) => Err(e),
            },
            retries: 0,
        }),
{
}

/// Exhausting the retries: when the first `n + 1` outcomes are transient, the
/// policy allows a retry after each of the first `n` of them and then gives
/// up, the call sends exactly `n + 1` attempts and, for `n > 0`, ends with the
/// last failure wrapped with the count `n`.
pub proof fn lemma_retries_exhausted<S: RetryableStrategy>(
    strategy: S,
    outcomes: Seq<Result<Response, Error>>,
    decisions: Seq<RetryDecision>,
    n: nat,
)
    requires
        outcomes.len() == n + 1,
        outcomes.len() <= usize::MAX,
        n <= u32::MAX,
        forall|i: int| 0 <= i <= n ==> strategy.classify(#[trigger] outcomes[i]) == Some(
            Retryable::Transient,
        ),
        decisions.len() == n + 1,
        forall|i: int| 0 <= i < n ==> #[trigger] decisions[i] is Retry,
        decisions[n as int] == RetryDecision::DoNotRetry,
    ensures
        spec_replay(strategy, true, outcomes, decisions, 0) == (Replay::Finished {
            sends: (n + 1) as usize,
            result: spec_give_up(outcomes[n as int], n as u32),
            retries: n as u32,
        }),
        n > 0 ==> (spec_give_up(outcomes[n as int], n as u32) matches Err(e) && e is Retry
            && spec_retries_of(e) == n),
{
    lemma_exhausted_run(strategy, outcomes, decisions, n, 0);
}

proof fn lemma_exhausted_run<S: RetryableStrategy>(
    strategy: S,
    outcomes: Seq<Result<Response, Error>>,
    decisions: Seq<RetryDecision>,
    n: nat,
    attempts: u32,
)
    requires
        outcomes.len() == n + 1,
        outcomes.len() <= usize::MAX,
        attempts + n <= u32::MAX,
        forall|i: int| 0 <= i <= n ==> strategy.classify(#[trigger] outcomes[i]) == Some(
            Retryable::Transient,
        ),
        decisions.len() == n + 1,
        forall|i: int| 0 <= i < n ==> #[trigger] decisions[i] is Retry,
        decisions[n as int] == RetryDecision::DoNotRetry,
    ensures
        spec_replay(strategy, true, outcomes, decisions, attempts) == (Replay::Finished {
            sends: (n + 1) as usize,
            result: spec_give_up(outcomes[n as int], (attempts + n) as u32),
            retries: (attempts + n) as u32,
        }),
    decreases n,
{
    if n > 0 {
        let rest = outcomes.drop_first();
        let rest_decisions = decisions.drop_first();
        assert forall|i: int| 0 <= i <= (n - 1) as nat implies strategy.classify(#[trigger] rest[i])
            == Some(Retryable::Transient) by {
            assert(rest[i] == outcomes[i + 1]);
        }
        assert forall|i: int| 0 <= i < (n - 1) as nat implies #[trigger] rest_decisions[i] is Retry by {
            assert(rest_decisions[i] == decisions[i + 1]);
        }
        assert(rest[(n - 1) as int] == outcomes[n as int]);
        assert(rest_decisions[(n - 1) as int] == decisions[n as int]);
        assert(strategy.classify(outcomes[0]) == Some(Retryable::Transient));
        assert(decisions[0] is Retry);
        lemma_exhausted_run(strategy, rest, rest_decisions, (n - 1) as nat, (attempts + 1) as u32);
    } else {
        assert(strategy.classify(outcomes[0]) == Some(Retryable::Transient));
    }
}

/// A request that cannot be duplicated ends the call before any attempt is
/// sent, whatever the transport and the policy would have done.
pub proof fn lemma_not_cloneable_sends_nothing<S: RetryableStrategy>(
    strategy: S,
    outcomes: Seq<Result<Response, Error>>,
    decisions: Seq<RetryDecision>,
)
    ensures
        spec_replay(strategy, false, outcomes, decisions, 0) == Replay::NotCloneable,
{
}

/// Purity of the engine: it keeps no state of its own between calls, so two
/// runs that see equal outcomes from the rest of the chain and equal decisions
/// from the policy (for equal numbers of retries made) send the same number of
/// attempts and end alike, with the request mattering only through whether it
/// can be duplicated.
pub proof fn lemma_replay_deterministic<S: RetryableStrategy>(
    strategy: S,
    first: Request,
    second: Request,
    outcomes: Seq<Result<Response, Error>>,
    decisions: Seq<RetryDecision>,
)
    requires
        first.spec_is_replayable() == second.spec_is_replayable(),
    ensures
        spec_replay(strategy, first.spec_is_replayable(), outcomes, decisions, 0) == spec_replay(
            strategy,
            second.spec_is_replayable(),
            outcomes,
            decisions,
            0,
        ),
{
}

} // verus!
