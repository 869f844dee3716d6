//! The error values this layer introduces or passes through.

use vstd::prelude::*;

verus! {

/// The categories of failure this layer reports.
///
/// `InvalidInput` covers the input-validation failures this layer itself
/// produces: a path with an interior null byte, a path at or beyond the
/// buffer capacity, a decoded address whose family tag is not the
/// Unix-domain constant, and a zero-duration timeout. `WouldBlock` and
/// `TimedOut` come back from blocking operations under non-blocking mode or
/// a configured timeout; callers must treat both as "try again". `Os`
/// carries a native error code through unchanged.
#[derive(Clone, Copy, Debug, PartialEq, Eq, Structural)]
pub enum ErrorKind {
    InvalidInput,
    WouldBlock,
    TimedOut,
    Os(i32),
}

/// An error: a category plus a fixed descriptive message.
#[derive(Clone, Copy, Debug)]
pub struct Error {
    kind: ErrorKind,
    message: &'static str,
}

impl Error {
    /// The category of this error.
    pub closed spec fn spec_kind(&self) -> ErrorKind {
        self.kind
    }

    /// The fixed message of this error.
    pub closed spec fn spec_message(&self) -> &'static str {
        self.message
    }

    pub fn new(kind: ErrorKind, message: &'static str) -> (r: Error)
        ensures
            r.spec_kind() == kind,
            r.spec_message() == message,
    {
        Error { kind, message }
    }

    pub fn kind(&self) -> (r: ErrorKind)
        ensures
            r == self.spec_kind(),
    {
        self.kind
    }

    pub fn message(&self) -> (r: &'static str)
        ensures
            r == self.spec_message(),
    {
        self.message
    }
}

} // verus!
