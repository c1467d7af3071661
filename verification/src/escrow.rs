//! Escrow accounts: custody of a security deposit from submission to
//! release, and the immutable timeline events that audit every step.
//!
//! An account moves `PendingSubmission -> UnderReview -> FundsSecured ->
//! ActiveProtection -> RefundProcessing -> Completed`, with `Disputed` as a
//! side branch from any active state and `Cancelled` / `Expired` as the
//! other terminal side branches. The submission deadline is fixed at
//! creation, seven days after it, and never recomputed.

use vstd::prelude::*;

use crate::auth::Identity;

verus! {

/// The submission window granted to the tenant: seven days, in nanoseconds.
pub const SUBMISSION_WINDOW_NS: u64 = 7 * 24 * 60 * 60 * 1_000_000_000;

/// The status of an escrow account.
#[derive(Clone, Copy, PartialEq, Eq, Structural, Debug)]
pub enum EscrowStatus {
    /// The tenant still has to submit the deposit.
    PendingSubmission,
    /// The landlord is reviewing the submitted deposit.
    UnderReview,
    /// Funds are locked in the custody contract.
    FundsSecured,
    /// Protection is active for the duration of the lease.
    ActiveProtection,
    /// A refund is being processed at lease end.
    RefundProcessing,
    /// The escrow completed and funds were released.
    Completed,
    /// A dispute is in progress.
    Disputed,
    /// The escrow was cancelled.
    Cancelled,
    /// The submission deadline passed without resolution.
    Expired,
}

impl EscrowStatus {
    /// Whether no further transition is defined from this status.
    pub open spec fn is_terminal(self) -> bool {
        self == EscrowStatus::Completed || self == EscrowStatus::Cancelled
            || self == EscrowStatus::Expired
    }

    /// The statuses an expiry call may act on: everything not already
    /// resolved, where resolved means the funds were secured (or any later
    /// stage derived from that) or the account reached a terminal state.
    pub open spec fn can_expire(self) -> bool {
        self == EscrowStatus::PendingSubmission || self == EscrowStatus::UnderReview
            || self == EscrowStatus::Disputed
    }

    /// The active states a dispute may be raised from: any state that is
    /// neither terminal nor already disputed.
    pub open spec fn can_dispute(self) -> bool {
        !self.is_terminal() && self != EscrowStatus::Disputed
    }
}

/// The closed enumeration of audit event kinds.
#[derive(Clone, Copy, PartialEq, Eq, Structural, Debug)]
pub enum EscrowEventType {
    Created,
    DepositSubmitted,
    LandlordApproval,
    FundsLocked,
    LeaseActivated,
    PropertyInspected,
    RefundInitiated,
    RefundCompleted,
    DisputeRaised,
    DisputeResolved,
    Cancelled,
    Expired,
}

/// A custody record for one security deposit.
///
/// The optional fields fill in progressively as the lifecycle advances and
/// are never cleared, except that a refund writes a fresh transaction hash.
#[derive(PartialEq, Eq, Debug)]
pub struct EscrowAccount {
    pub id: u64,
    pub rental_id: u64,
    pub property_id: u64,
    pub landlord: Identity,
    pub tenant: Identity,
    pub amount: u64,
    pub status: EscrowStatus,
    pub submission_deadline: u64,
    pub created_at: u64,
    pub updated_at: u64,
    pub smart_contract_address: Option<String>,
    pub transaction_hash: Option<String>,
    pub refund_amount: Option<u64>,
    pub dispute_reason: Option<String>,
}

impl Clone for EscrowAccount {
    fn clone(&self) -> (res: Self)
        ensures
            res == *self,
    {
        EscrowAccount {
            id: self.id,
            rental_id: self.rental_id,
            property_id: self.property_id,
            landlord: self.landlord,
            tenant: self.tenant,
            amount: self.amount,
            status: self.status,
            submission_deadline: self.submission_deadline,
            created_at: self.created_at,
            updated_at: self.updated_at,
            smart_contract_address: self.smart_contract_address.clone(),
            transaction_hash: self.transaction_hash.clone(),
            refund_amount: self.refund_amount,
            dispute_reason: self.dispute_reason.clone(),
        }
    }
}

impl EscrowAccount {
    /// The submission deadline sits exactly one window after creation; it is
    /// set once and never recomputed.
    pub open spec fn wf(self) -> bool {
        self.submission_deadline == self.created_at + SUBMISSION_WINDOW_NS
    }

    /// A fresh account in `PendingSubmission`, its deadline one window from
    /// now.
    pub fn new(
        id: u64,
        rental_id: u64,
        property_id: u64,
        landlord: Identity,
        tenant: Identity,
        amount: u64,
        now: u64,
    ) -> (r: EscrowAccount)
        requires
            now + SUBMISSION_WINDOW_NS <= u64::MAX,
        ensures
            r == (EscrowAccount {
                id,
                rental_id,
                property_id,
                landlord,
                tenant,
                amount,
                status: EscrowStatus::PendingSubmission,
                submission_deadline: (now + SUBMISSION_WINDOW_NS) as u64,
                created_at: now,
                updated_at: now,
                smart_contract_address: None::<String>,
                transaction_hash: None::<String>,
                refund_amount: None::<u64>,
                dispute_reason: None::<String>,
            }),
            r.wf(),
    {
        let submission_deadline = now + SUBMISSION_WINDOW_NS;
        EscrowAccount {
            id,
            rental_id,
            property_id,
            landlord,
            tenant,
            amount,
            status: EscrowStatus::PendingSubmission,
            submission_deadline,
            created_at: now,
            updated_at: now,
            smart_contract_address: None,
            transaction_hash: None,
            refund_amount: None,
            dispute_reason: None,
        }
    }

    /// Records the tenant's deposit submission for landlord review.
    pub fn submit_deposit(&mut self, transaction_hash: String, now: u64)
        ensures
            *final(self) == (EscrowAccount {
                status: EscrowStatus::UnderReview,
                transaction_hash: Some(transaction_hash),
                updated_at: now,
                ..*old(self)
            }),
    {
        self.status = EscrowStatus::UnderReview;
        self.transaction_hash = Some(transaction_hash);
        self.updated_at = now;
    }

    /// Records the landlord's approval and the custody contract reference.
    pub fn approve_deposit(&mut self, contract_address: String, now: u64)
        ensures
            *final(self) == (EscrowAccount {
                status: EscrowStatus::FundsSecured,
                smart_contract_address: Some(contract_address),
                updated_at: now,
                ..*old(self)
            }),
    {
        self.status = EscrowStatus::FundsSecured;
        self.smart_contract_address = Some(contract_address);
        self.updated_at = now;
    }

    /// Turns secured funds into active lease protection.
    pub fn activate_protection(&mut self, now: u64)
        ensures
            *final(self) == (EscrowAccount {
                status: EscrowStatus::ActiveProtection,
                updated_at: now,
                ..*old(self)
            }),
    {
        self.status = EscrowStatus::ActiveProtection;
        self.updated_at = now;
    }

    /// Starts refund processing for the given amount. The refund amount is
    /// deliberately independent of the deposited amount.
    pub fn initiate_refund(&mut self, refund_amount: u64, now: u64)
        ensures
            *final(self) == (EscrowAccount {
                status: EscrowStatus::RefundProcessing,
                refund_amount: Some(refund_amount),
                updated_at: now,
                ..*old(self)
            }),
    {
        self.status = EscrowStatus::RefundProcessing;
        self.refund_amount = Some(refund_amount);
        self.updated_at = now;
    }

    /// Completes the refund, writing the release transaction hash.
    pub fn complete_refund(&mut self, transaction_hash: String, now: u64)
        ensures
            *final(self) == (EscrowAccount {
                status: EscrowStatus::Completed,
                transaction_hash: Some(transaction_hash),
                updated_at: now,
                ..*old(self)
            }),
    {
        self.status = EscrowStatus::Completed;
        self.transaction_hash = Some(transaction_hash);
        self.updated_at = now;
    }

    /// Raises a dispute with a free-text reason.
    pub fn raise_dispute(&mut self, reason: String, now: u64)
        ensures
            *final(self) == (EscrowAccount {
                status: EscrowStatus::Disputed,
                dispute_reason: Some(reason),
                updated_at: now,
                ..*old(self)
            }),
    {
        self.status = EscrowStatus::Disputed;
        self.dispute_reason = Some(reason);
        self.updated_at = now;
    }

    /// Cancels the account.
    pub fn cancel(&mut self, now: u64)
        ensures
            *final(self) == (EscrowAccount {
                status: EscrowStatus::Cancelled,
                updated_at: now,
                ..*old(self)
            }),
    {
        self.status = EscrowStatus::Cancelled;
        self.updated_at = now;
    }

    /// Marks the account expired. Only the status changes; the record keeps
    /// its last update timestamp as evidence of when it last moved.
    pub fn expire(&mut self)
        ensures
            *final(self) == (EscrowAccount { status: EscrowStatus::Expired, ..*old(self) }),
    {
        self.status = EscrowStatus::Expired;
    }

    /// Whether the account still awaits submission past its deadline.
    pub fn is_overdue(&self, now: u64) -> (r: bool)
        ensures
            r == self.spec_is_overdue(now),
    {
        match self.status {
            EscrowStatus::PendingSubmission => now > self.submission_deadline,
            _ => false,
        }
    }

    /// The overdue predicate: submission is still pending and the deadline
    /// has passed.
    pub open spec fn spec_is_overdue(self, now: u64) -> bool {
        self.status == EscrowStatus::PendingSubmission && now > self.submission_deadline
    }
}

/// One immutable audit record: a single state change of one escrow account.
#[derive(PartialEq, Eq, Debug)]
pub struct EscrowTimelineEvent {
    pub id: u64,
    pub escrow_id: u64,
    pub event_type: EscrowEventType,
    pub title: String,
    pub description: String,
    pub timestamp: u64,
    pub amount: Option<u64>,
    pub transaction_hash: Option<String>,
    pub metadata: Option<String>,
}

impl Clone for EscrowTimelineEvent {
    fn clone(&self) -> (res: Self)
        ensures
            res == *self,
    {
        EscrowTimelineEvent {
            id: self.id,
            escrow_id: self.escrow_id,
            event_type: self.event_type,
            title: self.title.clone(),
            description: self.description.clone(),
            timestamp: self.timestamp,
            amount: self.amount,
            transaction_hash: self.transaction_hash.clone(),
            metadata: self.metadata.clone(),
        }
    }
}

} // verus!
