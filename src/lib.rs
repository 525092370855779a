//! A composable request-interception layer for an HTTP client, with a
//! policy-driven retry engine.
//!
//! The library holds the logic of the layer: the request and response values,
//! the error taxonomy, the classification of outcomes into transient and fatal
//! failures, the decision machine that drives retries, and the cursor that walks
//! a chain of middlewares. Transport, timers and the retry policy's clock and
//! randomness are supplied by the caller.

pub mod chain;
pub mod error;
pub mod headers;
pub mod middleware;
pub mod replay;
pub mod request;
pub mod response;
pub mod retry;
pub mod retryable;
pub mod strategy;

pub use chain::{Dispatch, Next, Probe};
pub use error::{Error, RetryError, TransportError, TransportErrorKind};
pub use middleware::RetryTransientMiddleware;
pub use replay::{replay, Replay};
pub use request::{Body, Request};
pub use response::{Response, ResponseView, Version};
pub use retry::{ExecutorView, RetryDecision, RetryExecutor, Step};
pub use retryable::Retryable;
pub use strategy::{
    default_on_request_failure, default_on_request_success, DefaultRetryableStrategy,
    RetryableStrategy,
};
