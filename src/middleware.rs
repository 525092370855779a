//! The retrying middleware's configuration.

use crate::request::Request;
use crate::retry::{ExecutorView, RetryExecutor};
use crate::strategy::{DefaultRetryableStrategy, RetryableStrategy};
use vstd::prelude::*;

verus! {

/// Retries requests that fail in a transient way and can be sent again.
///
/// It holds the retry policy `T`, which its driver consults with the start of
/// the logical request and the number of retries made so far, and the
/// strategy `R` that classifies outcomes. Each logical request is run by a
/// fresh `RetryExecutor`. A request with a streaming body always fails, before
/// anything is sent.
pub struct RetryTransientMiddleware<T, R: RetryableStrategy = DefaultRetryableStrategy> {
    retry_policy: T,
    retryable_strategy: R,
}

impl<T> RetryTransientMiddleware<T, DefaultRetryableStrategy> {
    /// A middleware with the given policy and the default strategy.
    pub fn new_with_policy(retry_policy: T) -> (r: Self)
        ensures
            r.policy() == retry_policy,
    {
        Self::new_with_policy_and_strategy(retry_policy, DefaultRetryableStrategy)
    }
}

impl<T, R: RetryableStrategy> RetryTransientMiddleware<T, R> {
    pub closed spec fn policy(&self) -> T {
        self.retry_policy
    }

    pub closed spec fn strategy(&self) -> R {
        self.retryable_strategy
    }

    /// A middleware with the given policy and strategy.
    pub fn new_with_policy_and_strategy(retry_policy: T, retryable_strategy: R) -> (r: Self)
        ensures
            r.policy() == retry_policy,
            r.strategy() == retryable_strategy,
    {
        RetryTransientMiddleware { retry_policy, retryable_strategy }
    }

    /// The retry policy.
    pub fn retry_policy(&self) -> (r: &T)
        ensures
            *r == self.policy(),
    {
        &self.retry_policy
    }

    /// The strategy that classifies outcomes.
    pub fn retryable_strategy(&self) -> (r: &R)
        ensures
            *r == self.strategy(),
    {
        &self.retryable_strategy
    }

    /// The engine for one logical request, with no retry made yet.
    pub fn executor(&self, request: Request) -> (r: RetryExecutor<'_, R>)
        ensures
            r@ == (ExecutorView {
                request,
                strategy: self.strategy(),
                attempts_so_far: 0u32,
                pending: None,
            }),
    {
        RetryExecutor::new(request, &self.retryable_strategy)
    }
}

} // verus!
