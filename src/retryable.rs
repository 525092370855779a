//! Classification of a completed attempt.

use vstd::prelude::*;

verus! {

/// Classification of an error or a status returned by a request.
#[derive(Clone, Copy, Debug, PartialEq, Eq, Structural)]
pub enum Retryable {
    /// The failure was due to something that might resolve in the future.
    Transient,
    /// Unresolvable error.
    Fatal,
}

impl Retryable {
    /// Whether this classification asks for another attempt.
    pub fn is_transient(&self) -> (r: bool)
        ensures
            r == (*self == Retryable::Transient),
    {
        match self {
            Retryable::Transient => true,
            Retryable::Fatal => false,
        }
    }
}

} // verus!
