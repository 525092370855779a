//! The retry engine, as a machine that makes every decision of a retried call
//! and leaves the waiting to its driver.
//!
//! A driver runs one logical request like this: it asks `start_attempt` for
//! the duplicate to send; hands the outcome of the rest of the chain to
//! `on_outcome`; where that asks for it, consults the retry policy and hands
//! its decision to `on_decision`; sleeps as long as that says, and starts the
//! next attempt. A `Finish` step ends the call. The extension bag is the
//! driver's, and the same bag is handed to every attempt.

use crate::error::{Error, RetryError};
use crate::request::Request;
use crate::response::Response;
use crate::retryable::Retryable;
use crate::strategy::RetryableStrategy;
use vstd::prelude::*;

verus! {

/// What the retry policy decided, with times in nanoseconds since the Unix
/// epoch.
#[derive(Clone, Copy, Debug, PartialEq, Eq, Structural)]
pub enum RetryDecision {
    /// Make the next attempt once this time has come.
    Retry { execute_after_nanos: u64 },
    /// Give up.
    DoNotRetry,
}

/// How long to sleep before an attempt due at `execute_after`, when it is
/// `now`: nothing where that time has passed.
pub open spec fn spec_sleep_nanos(execute_after: u64, now: u64) -> u64 {
    if execute_after > now {
        (execute_after - now) as u64
    } else {
        0
    }
}

pub fn sleep_nanos(execute_after: u64, now: u64) -> (r: u64)
    ensures
        r == spec_sleep_nanos(execute_after, now),
{
    if execute_after > now {
        execute_after - now
    } else {
        0
    }
}

/// The outcome that a call ends with after `retries` retries: a success as it
/// is; an error as it is where there was no retry, and otherwise wrapped with
/// the number of retries.
pub open spec fn spec_annotate(result: Result<Response, Error>, retries: u32) -> Result<
    Response,
    Error,
> {
    match result {
        Ok(r) => Ok(r),
        Err(e) => if retries > 0 {
            Err(Error::Retry(Box::new(RetryError::WithRetries { retries, err: e })))
        } else {
            Err(e)
        },
    }
}

pub fn annotate(result: Result<Response, Error>, retries: u32) -> (r: Result<Response, Error>)
    ensures
        r == spec_annotate(result, retries),
{
    match result {
        Ok(r) => Ok(r),
        Err(e) => if retries > 0 {
            Err(Error::Retry(Box::new(RetryError::WithRetries { retries, err: e })))
        } else {
            Err(e)
        },
    }
}

/// The outcome that a call ends with when the policy gives up on a transient
/// outcome after `retries` retries: the error, or for a response the error
/// that carries its status, wrapped with the number of retries where there
/// was one.
pub open spec fn spec_give_up(result: Result<Response, Error>, retries: u32) -> Result<
    Response,
    Error,
> {
    match result {
        Ok(r) => spec_annotate(Err(Error::Status(r@.status)), retries),
        Err(e) => spec_annotate(Err(e), retries),
    }
}

pub fn give_up(result: Result<Response, Error>, retries: u32) -> (r: Result<Response, Error>)
    ensures
        r == spec_give_up(result, retries),
{
    match result {
        Ok(r) => annotate(Err(Error::Status(r.status())), retries),
        Err(e) => annotate(Err(e), retries),
    }
}

/// What the driver does next.
#[derive(Debug)]
pub enum Step {
    /// Send this duplicate of the request through the rest of the chain.
    Send(Request),
    /// Consult the retry policy, giving it the number of retries made so far.
    Consult { attempts_so_far: u32 },
    /// Sleep this long, then start the next attempt.
    Sleep { nanos: u64 },
    /// The call is over, after `retries` retries.
    Finish { result: Result<Response, Error>, retries: u32 },
}

/// The state of one logical request in the retry engine.
pub struct RetryExecutor<'a, S: RetryableStrategy> {
    request: Request,
    strategy: &'a S,
    attempts_so_far: u32,
    pending: Option<Result<Response, Error>>,
}

/// The state of the engine: the request, the strategy, the number of retries
/// made, and the outcome that waits for the policy's decision.
pub ghost struct ExecutorView<S> {
    pub request: Request,
    pub strategy: S,
    pub attempts_so_far: u32,
    pub pending: Option<Result<Response, Error>>,
}

impl<'a, S: RetryableStrategy> View for RetryExecutor<'a, S> {
    type V = ExecutorView<S>;

    closed spec fn view(&self) -> ExecutorView<S> {
        ExecutorView {
            request: self.request,
            strategy: *self.strategy,
            attempts_so_far: self.attempts_so_far,
            pending: self.pending,
        }
    }
}

/// The error given for a request that cannot be duplicated.
pub fn not_cloneable_error() -> (r: Error)
    ensures
        r is Configuration,
{
    Error::Configuration(
        "Request object is not cloneable. Are you passing a streaming body?".to_owned(),
    )
}

impl<'a, S: RetryableStrategy> RetryExecutor<'a, S> {
    /// The engine at the start of a logical request: no retry made yet.
    pub fn new(request: Request, strategy: &'a S) -> (r: RetryExecutor<'a, S>)
        ensures
            r@ == (ExecutorView { request, strategy: *strategy, attempts_so_far: 0u32, pending: None }),
    {
        RetryExecutor { request, strategy, attempts_so_far: 0, pending: None }
    }

    /// The number of retries made so far.
    pub fn attempts_so_far(&self) -> (r: u32)
        ensures
            r == self@.attempts_so_far,
    {
        self.attempts_so_far
    }

    /// Whether an outcome waits for the policy's decision.
    pub fn awaiting_decision(&self) -> (r: bool)
        ensures
            r == self@.pending is Some,
    {
        self.pending.is_some()
    }

    /// Starts an attempt: a duplicate of the request to send, or, where the
    /// request cannot be duplicated, the end of the call with a configuration
    /// error, before anything is sent.
    pub fn start_attempt(&self) -> (r: Step)
        ensures
            self@.request.spec_is_replayable() ==> (r matches Step::Send(q) && q@
                == self@.request@),
            !self@.request.spec_is_replayable() ==> (r matches Step::Finish { result: Err(e), retries }
                && e is Configuration && retries == self@.attempts_so_far),
    {
        match self.request.try_clone() {
            Some(q) => Step::Send(q),
            None => Step::Finish { result: Err(not_cloneable_error()), retries: self.attempts_so_far },
        }
    }

    /// Takes the outcome of an attempt. A transient one waits for the
    /// policy; any other ends the call.
    pub fn on_outcome(&mut self, result: Result<Response, Error>) -> (r: Step)
        requires
            old(self)@.pending is None,
        ensures
            old(self)@.strategy.classify(result) == Some(Retryable::Transient) ==> {
                &&& r == Step::Consult { attempts_so_far: old(self)@.attempts_so_far }
                &&& final(self)@ == (ExecutorView { pending: Some(result), ..old(self)@ })
            },
            old(self)@.strategy.classify(result) != Some(Retryable::Transient) ==> {
                &&& r == (Step::Finish {
                    result: spec_annotate(result, old(self)@.attempts_so_far),
                    retries: old(self)@.attempts_so_far,
                })
                &&& final(self)@ == old(self)@
            },
    {
        let class = self.strategy.handle(&result);
        match class {
            Some(Retryable::Transient) => {
                self.pending = Some(result);
                Step::Consult { attempts_so_far: self.attempts_so_far }
            },
            _ => Step::Finish {
                result: annotate(result, self.attempts_so_far),
                retries: self.attempts_so_far,
            },
        }
    }

    /// Takes the policy's decision on the waiting outcome, at time `now`
    /// (nanoseconds since the Unix epoch). A refusal ends the call with that
    /// outcome as an error; a retry counts one more retry and asks for a sleep until the
    /// time the policy gave.
    pub fn on_decision(&mut self, decision: RetryDecision, now: u64) -> (r: Step)
        requires
            old(self)@.pending is Some,
            decision is Retry ==> old(self)@.attempts_so_far < u32::MAX,
        ensures
            decision is DoNotRetry ==> {
                &&& r == (Step::Finish {
                    result: spec_give_up(old(self)@.pending->0, old(self)@.attempts_so_far),
                    retries: old(self)@.attempts_so_far,
                })
                &&& final(self)@ == (ExecutorView { pending: None, ..old(self)@ })
            },
            decision matches RetryDecision::Retry { execute_after_nanos } ==> {
                &&& r == Step::Sleep { nanos: spec_sleep_nanos(execute_after_nanos, now) }
                &&& final(self)@ == (ExecutorView {
                    attempts_so_far: (old(self)@.attempts_so_far + 1) as u32,
                    pending: None,
                    ..old(self)@
                })
            },
    {
        let pending = self.pending.take();
        match decision {
            RetryDecision::Retry { execute_after_nanos } => {
                self.attempts_so_far = self.attempts_so_far + 1;
                Step::Sleep { nanos: sleep_nanos(execute_after_nanos, now) }
            },
            RetryDecision::DoNotRetry => {
                let result = pending.unwrap();
                Step::Finish {
                    result: give_up(result, self.attempts_so_far),
                    retries: self.attempts_so_far,
                }
            },
        }
    }
}

} // verus!
