//! The error taxonomy of the lifecycle engine.

use vstd::prelude::*;

verus! {

/// Every way a lifecycle operation can refuse to act. All are recoverable
/// results handed back to the caller; no operation retries on its own.
#[derive(Clone, Copy, PartialEq, Eq, Structural, Debug)]
pub enum LifecycleError {
    /// The caller is anonymous or could not be resolved.
    Unauthenticated,
    /// No record exists under the given id.
    NotFound,
    /// The caller lacks the role or ownership relation the operation demands.
    Forbidden,
    /// The record exists but its current status does not admit the requested
    /// transition (also returned when a record to be created already exists).
    InvalidState,
    /// Expiry was requested before the submission deadline passed.
    DeadlineNotReached,
}

impl LifecycleError {
    /// A short machine-readable label for the error, for hosts that log or
    /// display results.
    pub fn label(&self) -> (r: &'static str)
        ensures
            r@ == self.spec_label(),
    {
        match self {
            LifecycleError::Unauthenticated => "unauthenticated",
            LifecycleError::NotFound => "not found",
            LifecycleError::Forbidden => "forbidden",
            LifecycleError::InvalidState => "invalid state",
            LifecycleError::DeadlineNotReached => "deadline not reached",
        }
    }

    /// The label as a sequence of characters.
    pub open spec fn spec_label(self) -> Seq<char> {
        match self {
            LifecycleError::Unauthenticated => "unauthenticated"@,
            LifecycleError::NotFound => "not found"@,
            LifecycleError::Forbidden => "forbidden"@,
            LifecycleError::InvalidState => "invalid state"@,
            LifecycleError::DeadlineNotReached => "deadline not reached"@,
        }
    }
}

} // verus!
