//! Rental agreements and their state machine.
//!
//! An agreement moves `Requested -> UnderReview -> Approved -> Confirmed ->
//! Active -> Completed`, with `Cancelled` reachable from every non-terminal
//! state except `Active` (rejection and cancellation both end there).
//! Confirmation stores the id of the freshly minted receipt record.

use vstd::prelude::*;

use crate::auth::Identity;

verus! {

/// The status of a rental agreement.
#[derive(Clone, Copy, PartialEq, Eq, Structural, Debug)]
pub enum RentalStatus {
    Requested,
    UnderReview,
    Approved,
    Confirmed,
    Active,
    Completed,
    Cancelled,
}

impl RentalStatus {
    /// Whether no further transition is defined from this status.
    pub open spec fn is_terminal(self) -> bool {
        self == RentalStatus::Completed || self == RentalStatus::Cancelled
    }

    /// Whether an agreement in this status has passed confirmation, which is
    /// the moment the receipt record is minted.
    pub open spec fn past_confirmation(self) -> bool {
        self == RentalStatus::Confirmed || self == RentalStatus::Active
            || self == RentalStatus::Completed
    }
}

/// One rental agreement between a landlord and a tenant over a property.
///
/// Agreements are never deleted; terminal records stay for history.
#[derive(Clone, Copy, PartialEq, Eq, Debug)]
pub struct RentalAgreement {
    pub id: u64,
    pub property_id: u64,
    pub landlord: Identity,
    pub tenant: Identity,
    pub status: RentalStatus,
    pub start_date: u64,
    pub end_date: u64,
    pub rent_amount: u64,
    pub deposit_amount: u64,
    pub nft_id: Option<u64>,
    pub created_at: u64,
    pub updated_at: u64,
}

impl RentalAgreement {
    /// The receipt-record reference is set exactly when the agreement has
    /// passed confirmation, except that a cancelled agreement keeps whatever
    /// reference it had when it was cancelled.
    pub open spec fn wf(self) -> bool {
        &&& self.status.past_confirmation() ==> self.nft_id is Some
        &&& (self.status == RentalStatus::Requested || self.status == RentalStatus::UnderReview
            || self.status == RentalStatus::Approved) ==> self.nft_id is None
    }

    /// A fresh agreement in `Requested` with no receipt record yet.
    pub fn new(
        id: u64,
        property_id: u64,
        landlord: Identity,
        tenant: Identity,
        start_date: u64,
        end_date: u64,
        rent_amount: u64,
        deposit_amount: u64,
        now: u64,
    ) -> (r: RentalAgreement)
        ensures
            r == (RentalAgreement {
                id,
                property_id,
                landlord,
                tenant,
                status: RentalStatus::Requested,
                start_date,
                end_date,
                rent_amount,
                deposit_amount,
                nft_id: None::<u64>,
                created_at: now,
                updated_at: now,
            }),
            r.wf(),
    {
        RentalAgreement {
            id,
            property_id,
            landlord,
            tenant,
            status: RentalStatus::Requested,
            start_date,
            end_date,
            rent_amount,
            deposit_amount,
            nft_id: None,
            created_at: now,
            updated_at: now,
        }
    }

    /// Moves a freshly requested agreement under landlord review.
    pub fn mark_under_review(&mut self, now: u64)
        ensures
            *final(self) == (RentalAgreement {
                status: RentalStatus::UnderReview,
                updated_at: now,
                ..*old(self)
            }),
    {
        self.status = RentalStatus::UnderReview;
        self.updated_at = now;
    }

    /// Marks the agreement approved by the landlord.
    pub fn approve(&mut self, now: u64)
        ensures
            *final(self) == (RentalAgreement {
                status: RentalStatus::Approved,
                updated_at: now,
                ..*old(self)
            }),
    {
        self.status = RentalStatus::Approved;
        self.updated_at = now;
    }

    /// Confirms the agreement and stores the minted receipt-record id.
    pub fn confirm(&mut self, nft_id: u64, now: u64)
        ensures
            *final(self) == (RentalAgreement {
                status: RentalStatus::Confirmed,
                nft_id: Some(nft_id),
                updated_at: now,
                ..*old(self)
            }),
            final(self).wf(),
    {
        self.status = RentalStatus::Confirmed;
        self.nft_id = Some(nft_id);
        self.updated_at = now;
    }

    /// Activates a confirmed agreement.
    pub fn activate(&mut self, now: u64)
        ensures
            *final(self) == (RentalAgreement {
                status: RentalStatus::Active,
                updated_at: now,
                ..*old(self)
            }),
    {
        self.status = RentalStatus::Active;
        self.updated_at = now;
    }

    /// Cancels the agreement. Rejection by the landlord and cancellation by
    /// either party both end here; any receipt reference is kept for history.
    pub fn cancel(&mut self, now: u64)
        ensures
            *final(self) == (RentalAgreement {
                status: RentalStatus::Cancelled,
                updated_at: now,
                ..*old(self)
            }),
            old(self).wf() ==> final(self).wf(),
    {
        self.status = RentalStatus::Cancelled;
        self.updated_at = now;
    }
}

} // verus!
