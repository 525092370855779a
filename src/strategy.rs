//! Strategies that classify the outcome of an attempt.

use crate::error::{Error, TransportError};
use crate::response::Response;
use crate::retryable::Retryable;
use vstd::prelude::*;

verus! {

/// The statuses that are worth another attempt: request timeout (408) and
/// the server errors 500, 502, 503 and 504.
pub open spec fn is_transient_status(status: u16) -> bool {
    status == 408 || status == 500 || status == 502 || status == 503 || status == 504
}

/// How the default strategy classifies a response: transient for the
/// statuses above, and otherwise nothing to retry.
pub open spec fn spec_on_success(status: u16) -> Option<Retryable> {
    if is_transient_status(status) {
        Some(Retryable::Transient)
    } else {
        None
    }
}

/// How the default strategy classifies an error: a transport failure that may
/// go away (a timeout, a failed connection) is transient, and every other
/// error is fatal.
pub open spec fn spec_on_failure(e: Error) -> Option<Retryable> {
    match e {
        Error::Transport(t) => if t.spec_is_recoverable() {
            Some(Retryable::Transient)
        } else {
            Some(Retryable::Fatal)
        },
        _ => Some(Retryable::Fatal),
    }
}

/// How the default strategy classifies an outcome.
pub open spec fn spec_default_classify(res: Result<Response, Error>) -> Option<Retryable> {
    match res {
        Ok(r) => spec_on_success(r@.status),
        Err(e) => spec_on_failure(e),
    }
}

/// Classifies the outcome of an attempt: `Some(Transient)` asks for a retry,
/// `Some(Fatal)` and `None` end the call with the outcome as it is.
pub trait RetryableStrategy {
    /// The classification of an outcome. It depends on the outcome alone, so
    /// that classifying one outcome twice gives the same answer.
    spec fn classify(&self, res: Result<Response, Error>) -> Option<Retryable>;

    fn handle(&self, res: &Result<Response, Error>) -> (r: Option<Retryable>)
        ensures
            r == self.classify(*res),
    ;
}

/// The default classification of a response.
pub fn default_on_request_success(success: &Response) -> (r: Option<Retryable>)
    ensures
        r == spec_on_success(success@.status),
{
    let status = success.status();
    if status == 408 || status == 500 || status == 502 || status == 503 || status == 504 {
        Some(Retryable::Transient)
    } else {
        None
    }
}

/// The default classification of an error.
pub fn default_on_request_failure(error: &Error) -> (r: Option<Retryable>)
    ensures
        r == spec_on_failure(*error),
{
    match error {
        Error::Transport(t) => if t.is_recoverable() {
            Some(Retryable::Transient)
        } else {
            Some(Retryable::Fatal)
        },
        _ => Some(Retryable::Fatal),
    }
}

/// The strategy used unless another is given.
#[derive(Clone, Copy, Debug)]
pub struct DefaultRetryableStrategy;

impl RetryableStrategy for DefaultRetryableStrategy {
    open spec fn classify(&self, res: Result<Response, Error>) -> Option<Retryable> {
        spec_default_classify(res)
    }

    fn handle(&self, res: &Result<Response, Error>) -> (r: Option<Retryable>) {
        match res {
            Ok(success) => default_on_request_success(success),
            Err(error) => default_on_request_failure(error),
        }
    }
}

impl Retryable {
    /// Classifies an outcome with the default strategy.
    pub fn from_rquest_response(res: &Result<Response, Error>) -> (r: Option<Retryable>)
        ensures
            r == spec_default_classify(*res),
    {
        DefaultRetryableStrategy.handle(res)
    }
}

impl<'a> From<&'a TransportError> for Retryable {
    /// A transport failure that may go away (a timeout, a failed connection)
    /// is transient; any other is fatal.
    fn from(error: &'a TransportError) -> (r: Retryable)
        ensures
            error.spec_is_recoverable() ==> r == Retryable::Transient,
            !error.spec_is_recoverable() ==> r == Retryable::Fatal,
    {
        if error.is_recoverable() {
            Retryable::Transient
        } else {
            Retryable::Fatal
        }
    }
}

impl<'a> vstd::std_specs::convert::FromSpecImpl<&'a TransportError> for Retryable {
    open spec fn obeys_from_spec() -> bool {
        true
    }

    open spec fn from_spec(v: &'a TransportError) -> Retryable {
        if v.spec_is_recoverable() {
            Retryable::Transient
        } else {
            Retryable::Fatal
        }
    }
}

} // verus!
