//! The error taxonomy of the layer.

use vstd::prelude::*;

verus! {

/// What went wrong in the transport.
#[derive(Clone, Copy, Debug, PartialEq, Eq, Structural)]
pub enum TransportErrorKind {
    /// The request or the response timed out.
    Timeout,
    /// The connection could not be established.
    Connect,
    /// The request could not be sent.
    Request,
    /// The body of the request or of the response failed.
    Body,
    /// The response could not be decoded.
    Decode,
    /// The request could not be built.
    Builder,
    /// Following a redirect failed.
    Redirect,
    /// Anything else the transport reports.
    Other,
}

/// A failure reported by the transport.
#[derive(Clone, Debug)]
pub struct TransportError {
    pub kind: TransportErrorKind,
    pub message: String,
}

impl TransportError {
    /// Whether the failure may go away if the request is sent again.
    pub open spec fn spec_is_recoverable(&self) -> bool {
        self.kind == TransportErrorKind::Timeout || self.kind == TransportErrorKind::Connect
    }

    pub fn is_recoverable(&self) -> (r: bool)
        ensures
            r == self.spec_is_recoverable(),
    {
        match self.kind {
            TransportErrorKind::Timeout | TransportErrorKind::Connect => true,
            _ => false,
        }
    }
}

/// The errors that a call through the middleware chain can end with.
#[derive(Debug)]
pub enum Error {
    /// The layer was used in a way that cannot work, such as retrying a
    /// request whose body cannot be replayed. Never retried.
    Configuration(String),
    /// A failure of the transport.
    Transport(TransportError),
    /// A failure raised by a middleware, unrelated to the transport.
    Middleware(String),
    /// A response whose status is a client or a server error.
    Status(u16),
    /// The error that ended a retried call.
    Retry(Box<RetryError>),
}

/// The error returned by the retry engine, with the number of retries made.
#[derive(Debug)]
pub enum RetryError {
    /// The request failed after `retries` retries; `err` is the last failure.
    WithRetries { retries: u32, err: Error },
    /// The request failed without being retried.
    Error(Error),
}

/// The number of retries that an error records.
pub open spec fn spec_retries_of(e: Error) -> u32 {
    match e {
        Error::Retry(r) => match *r {
            RetryError::WithRetries { retries, .. } => retries,
            RetryError::Error(_) => 0,
        },
        _ => 0,
    }
}

impl RetryError {
    /// The number of retries made before the request was given up.
    pub fn retries(&self) -> (r: u32)
        ensures
            r == (match *self {
                RetryError::WithRetries { retries, .. } => retries,
                RetryError::Error(_) => 0,
            }),
    {
        match self {
            RetryError::WithRetries { retries, .. } => *retries,
            RetryError::Error(_) => 0,
        }
    }

    /// The last underlying failure.
    pub fn inner(&self) -> (r: &Error)
        ensures
            *r == (match *self {
                RetryError::WithRetries { err, .. } => err,
                RetryError::Error(err) => err,
            }),
    {
        match self {
            RetryError::WithRetries { err, .. } => err,
            RetryError::Error(err) => err,
        }
    }
}

impl Error {
    /// The number of retries that this error records: zero unless it was
    /// produced by the retry engine after at least one retry.
    pub fn retries(&self) -> (r: u32)
        ensures
            r == spec_retries_of(*self),
    {
        match self {
            Error::Retry(r) => r.retries(),
            _ => 0,
        }
    }

    /// Whether this error reports a misuse of the layer.
    pub fn is_configuration(&self) -> (r: bool)
        ensures
            r == (*self is Configuration),
    {
        match self {
            Error::Configuration(_) => true,
            _ => false,
        }
    }
}

} // verus!
