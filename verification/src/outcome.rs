//! Failure taxonomy shared by every component of the engine.

use vstd::prelude::*;

verus! {

/// Why an operation was refused.
///
/// Every component returns one of these outcomes rather than raising through
/// unrelated layers; the transport layer maps them to user-facing messages.
#[derive(Clone, Copy, Debug, PartialEq, Eq, Structural)]
pub enum Rejection {
    /// A referenced principal, thread, post or section is absent.
    NotFound,
    /// No credential was presented on a protected route.
    Unauthenticated,
    /// The credential is garbled, expired, or names no known principal.
    InvalidCredential,
    /// The principal is authenticated but role or ownership is insufficient.
    Forbidden,
    /// An active ban blocks the action.
    Banned,
    /// A content-integrity rule is violated (an answered post deleted, a
    /// section with an empty role set).
    Conflict,
    /// An identity-proof token is expired, consumed or unknown.
    TokenInvalid,
    /// The storage collaborator failed; always surfaced, never swallowed.
    StorageFailure,
}

/// The outcome of a permission check; it never performs the mutation itself.
#[derive(Clone, Copy, Debug, PartialEq, Eq, Structural)]
pub enum Decision {
    Allow,
    Deny(Rejection),
}

impl Decision {
    pub open spec fn allowed(self) -> bool {
        self == Decision::Allow
    }

    pub fn is_allow(&self) -> (r: bool)
        ensures
            r == self.allowed(),
    {
        match self {
            Decision::Allow => true,
            Decision::Deny(_) => false,
        }
    }
}

} // verus!
