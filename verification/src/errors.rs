//! The error kinds that op handlers surface to the guest.

use vstd::prelude::*;

verus! {

/// Every user-visible failure of an op handler carries one of these kinds.
#[derive(Clone, Copy, Debug, PartialEq, Eq, Structural)]
pub enum ErrorKind {
    /// Resource handle unknown, or the resource is not of the requested kind.
    BadResource,
    /// A zero-copy buffer was required but absent.
    NoBuffer,
    /// The permission policy refused the action.
    PermissionDenied,
    /// An underlying OS or network failure; the message is preserved.
    Io,
    /// The payload could not be decoded.
    Parse,
    /// The queue could not accept a reply; the push may be retried.
    Overflow,
}

/// A user-level op failure: handlers return it instead of panicking.
#[derive(Clone, Debug)]
pub struct OpError {
    pub kind: ErrorKind,
    pub message: String,
}

impl OpError {
    pub fn new(kind: ErrorKind, message: String) -> (r: OpError)
        ensures
            r.kind == kind,
            r.message == message,
    {
        OpError { kind, message }
    }

    pub fn bad_resource() -> (r: OpError)
        ensures
            r.kind == ErrorKind::BadResource,
    {
        OpError { kind: ErrorKind::BadResource, message: "bad resource id".to_owned() }
    }

    pub fn no_buffer() -> (r: OpError)
        ensures
            r.kind == ErrorKind::NoBuffer,
    {
        OpError { kind: ErrorKind::NoBuffer, message: "no buffer specified".to_owned() }
    }

    pub fn permission_denied() -> (r: OpError)
        ensures
            r.kind == ErrorKind::PermissionDenied,
    {
        OpError { kind: ErrorKind::PermissionDenied, message: "permission denied".to_owned() }
    }
}

} // verus!
