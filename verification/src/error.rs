//! Errors of a flush.

use crate::operation::OperationType;
use vstd::prelude::*;

verus! {

/// What went wrong in a flush.
#[derive(Clone, Copy, Debug, PartialEq, Eq, Structural)]
pub enum ErrorKind {
    /// The graph could not be encoded.
    Serialization,
    /// The executor could not be reached, or the message could not be written.
    Connection,
    /// No response arrived within the bounded wait.
    ResponseTimeout,
    /// The response is not valid text, or breaks the framing.
    Protocol,
}

/// A failed flush: what went wrong, and the operation that triggered it.
#[derive(Clone, Copy, Debug, PartialEq, Eq, Structural)]
pub struct FlushError {
    pub kind: ErrorKind,
    pub operation: OperationType,
}

} // verus!
