//! Caller identities and authentication.
//!
//! An [`Identity`] is an opaque, equality-comparable caller token with one
//! distinguished anonymous value. The host resolves the identity of the
//! current caller and passes it to every operation; write paths refuse the
//! anonymous identity.

use vstd::prelude::*;

use crate::errors::LifecycleError;

verus! {

/// An opaque caller token. The engine reads nothing of it beyond equality;
/// the raw value `0` is reserved for the distinguished anonymous identity.
#[derive(Clone, Copy, PartialEq, Eq, Structural, Hash, Debug)]
pub struct Identity {
    pub raw: u64,
}

impl Identity {
    /// The distinguished anonymous identity, never a valid principal for
    /// authorized operations.
    pub fn anonymous() -> (id: Identity)
        ensures
            id.is_anon(),
    {
        Identity { raw: 0 }
    }

    /// Whether this is the anonymous identity.
    pub open spec fn is_anon(self) -> bool {
        self.raw == 0
    }
}

/// Whether the given caller is the anonymous identity.
pub fn is_anonymous(caller: Identity) -> (r: bool)
    ensures
        r == caller.is_anon(),
{
    caller.raw == 0
}

/// Authentication for write paths: returns the caller unchanged, or
/// refuses the anonymous identity.
pub fn require_authenticated(caller: Identity) -> (r: Result<Identity, LifecycleError>)
    ensures
        caller.is_anon() ==> r == Err::<Identity, LifecycleError>(LifecycleError::Unauthenticated),
        !caller.is_anon() ==> r == Ok::<Identity, LifecycleError>(caller),
{
    if is_anonymous(caller) {
        Err(LifecycleError::Unauthenticated)
    } else {
        Ok(caller)
    }
}

} // verus!
