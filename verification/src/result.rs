//! Errors of the socket operations.

use vstd::prelude::*;

verus! {

/// Which operation of a socket failed.
#[derive(Debug, Clone, Copy, PartialEq, Eq, Structural)]
pub enum NanoErrorKind {
    SocketInitializationError,
    SocketBindError,
    SocketOptionError,
}

/// A failed socket operation: what was attempted, in words, and which
/// kind of operation it was.
#[derive(Debug, Clone)]
pub struct NanoError {
    pub description: String,
    pub kind: NanoErrorKind,
}

pub type NanoResult<T> = Result<T, NanoError>;

impl NanoError {
    pub fn new(description: String, kind: NanoErrorKind) -> (e: NanoError)
        ensures
            e.description@ == description@,
            e.kind == kind,
    {
        NanoError { description, kind }
    }
}

/// Why a read or a write of a socket failed.
#[derive(Debug, Clone, Copy, PartialEq, Eq, Structural)]
pub enum IoErrorKind {
    /// nanomsg refused the send or the receive.
    OtherIoError,
    /// Too many empty messages came in a row while reading to the end.
    NoProgress,
}

pub type IoResult<T> = Result<T, IoErrorKind>;

} // verus!
