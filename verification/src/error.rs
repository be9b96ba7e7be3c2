use vstd::prelude::*;

verus! {

/// Why constructing a handle failed.  Both variants carry the operating
/// system's native error code, so the caller sees the OS's own diagnosis.
///
/// Nothing here is fatal: every failure is returned to the caller, and no
/// operation is retried.
#[derive(Clone, Copy, Debug, PartialEq, Eq, Structural)]
pub enum Error {
    /// Opening the given path failed (not found, permission denied, ...),
    /// before any identity query could run.
    Open { code: i32 },
    /// The identity-metadata query on an open handle failed (invalid handle,
    /// or an object - a disconnected console stream, say - that supports no
    /// identity query).
    Query { code: i32 },
}

impl Error {
    /// The operating system's error code behind this failure.
    pub open spec fn spec_code(self) -> i32 {
        match self {
            Error::Open { code } => code,
            Error::Query { code } => code,
        }
    }

    /// The operating system's error code behind this failure.
    pub fn code(&self) -> (c: i32)
        ensures
            c == self.spec_code(),
    {
        match self {
            Error::Open { code } => *code,
            Error::Query { code } => *code,
        }
    }

    /// Whether the path could not even be opened, as opposed to the identity
    /// query failing on an already open handle.
    pub fn is_open_failure(&self) -> (r: bool)
        ensures
            r == (self is Open),
    {
        match self {
            Error::Open { .. } => true,
            Error::Query { .. } => false,
        }
    }
}

} // verus!
