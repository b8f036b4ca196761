//! The error value that every operation of the library returns on failure.

use vstd::prelude::*;

verus! {

/// The cause of a failed operation.
#[derive(Clone, Copy, Debug, PartialEq, Eq, Structural)]
pub enum ErrKind {
    /// The entity asked for is absent.
    NotFound,
    /// A user with the requested username is already registered.
    DuplicateUser,
    /// The presented password does not match the stored digest.
    InvalidCredentials,
    /// The token is inactive or lacks the capability the operation needs.
    Forbidden,
    /// The store violates one of its invariants.
    Inconsistency,
    /// The store or the mail collaborator failed; the request may be retried.
    UpstreamFailure,
    /// Hashing failed; the request cannot be completed.
    HashingError,
}

/// A failure: its cause and a human-readable detail text.
#[derive(Debug, PartialEq, Eq)]
pub struct JadeErr {
    pub kind: ErrKind,
    pub details: String,
}

/// Whether `r` is a failure whose cause is `kind`.
pub open spec fn fails_with<T>(r: Result<T, JadeErr>, kind: ErrKind) -> bool {
    r matches Err(e) && e.kind == kind
}

/// Whether `r` is a success whose value has the view `v`.
pub open spec fn gives<T: View>(r: Result<T, JadeErr>, v: T::V) -> bool {
    r matches Ok(x) && x@ == v
}

impl Clone for JadeErr {
    fn clone(&self) -> (r: Self)
        ensures
            r == *self,
    {
        JadeErr { kind: self.kind, details: self.details.clone() }
    }
}

impl JadeErr {
    /// An error reported by a collaborator, carrying only its text.
    pub fn new(details: &str) -> (r: JadeErr)
        ensures
            r.kind == ErrKind::UpstreamFailure,
            r.details@ == details@,
    {
        JadeErr { kind: ErrKind::UpstreamFailure, details: details.to_owned() }
    }

    /// An error with a known cause.
    pub fn of(kind: ErrKind, details: String) -> (r: JadeErr)
        ensures
            r.kind == kind,
            r.details == details,
    {
        JadeErr { kind, details }
    }

    /// The cause of this error.
    pub fn kind(&self) -> (r: ErrKind)
        ensures
            r == self.kind,
    {
        self.kind
    }

    /// The detail text, borrowed.
    pub fn description(&self) -> (r: &str)
        ensures
            r@ == self.details@,
    {
        self.details.as_str()
    }

    /// The detail text, taking the error apart.
    pub fn to_string(self) -> (r: String)
        ensures
            r@ == self.details@,
    {
        self.details
    }
}

} // verus!
