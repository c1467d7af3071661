//! The escrow lifecycle engine.
//!
//! Every mutating operation here follows one shape: authenticate the
//! caller, load the account, check the role or ownership relation the
//! transition demands, check the source state, apply the transition,
//! persist the account, and append exactly one audit event. The contracts
//! spell out, for every input, which rejection comes back and what the
//! store looks like after a success.

use vstd::prelude::*;

use crate::auth::{is_anonymous, Identity};
use crate::errors::LifecycleError;
use crate::escrow::{EscrowAccount, EscrowEventType, EscrowStatus, EscrowTimelineEvent, SUBMISSION_WINDOW_NS};
use crate::storage::{
    accounts_of, escrow_at, escrow_idx, event_matches, has_escrow, Storage,
};
use crate::user::Role;

verus! {

/// Which party an escrow transition demands.
pub enum EscrowActor {
    /// Only the account's tenant.
    Tenant,
    /// Only the account's landlord.
    Landlord,
    /// The account's landlord or its tenant.
    Party,
    /// Any authenticated caller.
    AnyAuthenticated,
}

/// Whether the caller is the party the transition demands.
pub open spec fn actor_ok(a: EscrowAccount, caller: Identity, who: EscrowActor) -> bool {
    match who {
        EscrowActor::Tenant => caller == a.tenant,
        EscrowActor::Landlord => caller == a.landlord,
        EscrowActor::Party => caller == a.landlord || caller == a.tenant,
        EscrowActor::AnyAuthenticated => true,
    }
}

/// The rejection, if any, of a transition that demands the party `who` and
/// the single source state `from`: authentication is checked first, then
/// existence, then the party, then the state.
pub open spec fn escrow_rejection(
    s: Storage,
    caller: Identity,
    escrow_id: u64,
    who: EscrowActor,
    from: EscrowStatus,
) -> Option<LifecycleError> {
    if caller.is_anon() {
        Some(LifecycleError::Unauthenticated)
    } else if !has_escrow(s.escrow_accounts@, escrow_id) {
        Some(LifecycleError::NotFound)
    } else if !actor_ok(escrow_at(s.escrow_accounts@, escrow_id), caller, who) {
        Some(LifecycleError::Forbidden)
    } else if escrow_at(s.escrow_accounts@, escrow_id).status != from {
        Some(LifecycleError::InvalidState)
    } else {
        None
    }
}

/// The rejection, if any, of an expiry call: the deadline must have passed
/// and the account must not be resolved already. Any authenticated caller
/// may expire.
pub open spec fn expiry_rejection(
    s: Storage,
    caller: Identity,
    escrow_id: u64,
    now: u64,
) -> Option<LifecycleError> {
    if caller.is_anon() {
        Some(LifecycleError::Unauthenticated)
    } else if !has_escrow(s.escrow_accounts@, escrow_id) {
        Some(LifecycleError::NotFound)
    } else if now <= escrow_at(s.escrow_accounts@, escrow_id).submission_deadline {
        Some(LifecycleError::DeadlineNotReached)
    } else if !escrow_at(s.escrow_accounts@, escrow_id).status.can_expire() {
        Some(LifecycleError::InvalidState)
    } else {
        None
    }
}

/// The rejection, if any, of raising a dispute: either party may raise one
/// from any state that is neither terminal nor already disputed.
pub open spec fn dispute_rejection(
    s: Storage,
    caller: Identity,
    escrow_id: u64,
) -> Option<LifecycleError> {
    if caller.is_anon() {
        Some(LifecycleError::Unauthenticated)
    } else if !has_escrow(s.escrow_accounts@, escrow_id) {
        Some(LifecycleError::NotFound)
    } else if !actor_ok(escrow_at(s.escrow_accounts@, escrow_id), caller, EscrowActor::Party) {
        Some(LifecycleError::Forbidden)
    } else if !escrow_at(s.escrow_accounts@, escrow_id).status.can_dispute() {
        Some(LifecycleError::InvalidState)
    } else {
        None
    }
}

/// What every successful transition does to the store: the account is
/// replaced by `a1` in place, exactly one audit event is appended with a
/// fresh id and the given payload, and nothing else moves.
pub open spec fn escrow_transitioned(
    s0: Storage,
    s1: Storage,
    escrow_id: u64,
    a1: EscrowAccount,
    event_type: EscrowEventType,
    title: Seq<char>,
    description: Seq<char>,
    now: u64,
    amount: Option<u64>,
    transaction_hash: Option<String>,
) -> bool {
    &&& s1.escrow_accounts@ == s0.escrow_accounts@.update(
        escrow_idx(s0.escrow_accounts@, escrow_id),
        a1,
    )
    &&& s1.escrow_events@ == s0.escrow_events@.push(s1.escrow_events@.last())
    &&& event_matches(
        s1.escrow_events@.last(),
        s0.escrow_event_counter + 1,
        escrow_id,
        event_type,
        title,
        description,
        now,
        amount,
        transaction_hash,
    )
    &&& s1.escrow_event_counter == s0.escrow_event_counter + 1
    &&& s1 == (Storage {
        escrow_accounts: s1.escrow_accounts,
        escrow_events: s1.escrow_events,
        escrow_event_counter: s1.escrow_event_counter,
        ..s0
    })
}

/// The request handed in when an escrow account is opened.
#[derive(Clone, Copy, PartialEq, Eq, Debug)]
pub struct CreateEscrowRequest {
    pub rental_id: u64,
    pub property_id: u64,
    pub landlord: Identity,
    pub tenant: Identity,
    pub amount: u64,
}

/// Opens an escrow account for a rental: a fresh id, status
/// `PendingSubmission`, the deadline one submission window from now, and a
/// `Created` audit event.
pub fn create_escrow_account(
    store: &mut Storage,
    caller: Identity,
    now: u64,
    request: CreateEscrowRequest,
) -> (r: Result<EscrowAccount, LifecycleError>)
    requires
        old(store).wf(),
        old(store).escrow_counter < u64::MAX,
        old(store).escrow_event_counter < u64::MAX,
        now + SUBMISSION_WINDOW_NS <= u64::MAX,
    ensures
        final(store).wf(),
        caller.is_anon() ==> r == Err::<EscrowAccount, LifecycleError>(
            LifecycleError::Unauthenticated,
        ) && *final(store) == *old(store),
        !caller.is_anon() ==> ({
            let a1 = EscrowAccount {
                id: (old(store).escrow_counter + 1) as u64,
                rental_id: request.rental_id,
                property_id: request.property_id,
                landlord: request.landlord,
                tenant: request.tenant,
                amount: request.amount,
                status: EscrowStatus::PendingSubmission,
                submission_deadline: (now + SUBMISSION_WINDOW_NS) as u64,
                created_at: now,
                updated_at: now,
                smart_contract_address: None::<String>,
                transaction_hash: None::<String>,
                refund_amount: None::<u64>,
                dispute_reason: None::<String>,
            };
            &&& r == Ok::<EscrowAccount, LifecycleError>(a1)
            &&& final(store).escrow_accounts@ == old(store).escrow_accounts@.push(a1)
            &&& final(store).escrow_counter == old(store).escrow_counter + 1
            &&& final(store).escrow_events@ == old(store).escrow_events@.push(
                final(store).escrow_events@.last(),
            )
            &&& event_matches(
                final(store).escrow_events@.last(),
                old(store).escrow_event_counter + 1,
                a1.id,
                EscrowEventType::Created,
                "Escrow Account Created"@,
                "Security deposit escrow account has been created for this rental agreement"@,
                now,
                Some(request.amount),
                None::<String>,
            )
            &&& final(store).escrow_event_counter == old(store).escrow_event_counter + 1
            &&& (*final(store) == (Storage {
                escrow_accounts: final(store).escrow_accounts,
                escrow_events: final(store).escrow_events,
                escrow_counter: final(store).escrow_counter,
                escrow_event_counter: final(store).escrow_event_counter,
                ..*old(store)
            }))
        }),
{
    if is_anonymous(caller) {
        return Err(LifecycleError::Unauthenticated);
    }
    let id = store.get_next_escrow_id();
    let account = EscrowAccount::new(
        id,
        request.rental_id,
        request.property_id,
        request.landlord,
        request.tenant,
        request.amount,
        now,
    );
    proof {
        assert(!has_escrow(store.escrow_accounts@, id)) by {
            if has_escrow(store.escrow_accounts@, id) {
                let k = escrow_idx(store.escrow_accounts@, id);
                assert(0 <= k < store.escrow_accounts@.len() && store.escrow_accounts@[k].id
                    == id);
            }
        }
    }
    let stored = account.clone();
    match store.create_escrow_account(stored) {
        Ok(_) => Ok(account),
        Err(e) => Err(e),
    }
}

/// The tenant submits the security deposit: `PendingSubmission` to
/// `UnderReview`, recording the submission transaction hash.
pub fn submit_security_deposit(
    store: &mut Storage,
    caller: Identity,
    now: u64,
    escrow_id: u64,
    transaction_hash: String,
) -> (r: Result<EscrowAccount, LifecycleError>)
    requires
        old(store).wf(),
        old(store).escrow_event_counter < u64::MAX,
    ensures
        final(store).wf(),
        ({
            let rej = escrow_rejection(
                *old(store),
                caller,
                escrow_id,
                EscrowActor::Tenant,
                EscrowStatus::PendingSubmission,
            );
            match rej {
                Some(e) => r == Err::<EscrowAccount, LifecycleError>(e) && *final(store) == *old(store),
                None => ({
                    let a0 = escrow_at(old(store).escrow_accounts@, escrow_id);
                    let a1 = EscrowAccount {
                        status: EscrowStatus::UnderReview,
                        transaction_hash: Some(transaction_hash),
                        updated_at: now,
                        ..a0
                    };
                    &&& r == Ok::<EscrowAccount, LifecycleError>(a1)
                    &&& escrow_transitioned(
                        *old(store),
                        *final(store),
                        escrow_id,
                        a1,
                        EscrowEventType::DepositSubmitted,
                        "Security Deposit Submitted"@,
                        "Tenant has submitted the security deposit for review"@,
                        now,
                        Some(a0.amount),
                        Some(transaction_hash),
                    )
                }),
            }
        }),
{
    if is_anonymous(caller) {
        return Err(LifecycleError::Unauthenticated);
    }
    let mut account = match store.get_escrow_account(escrow_id) {
        Some(a) => a,
        None => {
            return Err(LifecycleError::NotFound);
        },
    };
    if account.tenant != caller {
        return Err(LifecycleError::Forbidden);
    }
    if account.status != EscrowStatus::PendingSubmission {
        return Err(LifecycleError::InvalidState);
    }
    let amount = account.amount;
    let tx_for_event = transaction_hash.clone();
    account.submit_deposit(transaction_hash, now);
    let updated = account.clone();
    let upd = store.update_escrow_account(updated);
    proof {
        assert(upd is Ok);
    }
    let _ = store.add_timeline_event(
        escrow_id,
        EscrowEventType::DepositSubmitted,
        "Security Deposit Submitted".to_owned(),
        "Tenant has submitted the security deposit for review".to_owned(),
        Some(amount),
        Some(tx_for_event),
        now,
    );
    Ok(account)
}

/// The landlord approves the submitted deposit: `UnderReview` to
/// `FundsSecured`, recording the custody contract reference.
pub fn approve_security_deposit(
    store: &mut Storage,
    caller: Identity,
    now: u64,
    escrow_id: u64,
    contract_address: String,
) -> (r: Result<EscrowAccount, LifecycleError>)
    requires
        old(store).wf(),
        old(store).escrow_event_counter < u64::MAX,
    ensures
        final(store).wf(),
        ({
            let rej = escrow_rejection(
                *old(store),
                caller,
                escrow_id,
                EscrowActor::Landlord,
                EscrowStatus::UnderReview,
            );
            match rej {
                Some(e) => r == Err::<EscrowAccount, LifecycleError>(e) && *final(store) == *old(store),
                None => ({
                    let a0 = escrow_at(old(store).escrow_accounts@, escrow_id);
                    let a1 = EscrowAccount {
                        status: EscrowStatus::FundsSecured,
                        smart_contract_address: Some(contract_address),
                        updated_at: now,
                        ..a0
                    };
                    &&& r == Ok::<EscrowAccount, LifecycleError>(a1)
                    &&& escrow_transitioned(
                        *old(store),
                        *final(store),
                        escrow_id,
                        a1,
                        EscrowEventType::LandlordApproval,
                        "Deposit Approved"@,
                        "Landlord has approved the security deposit and funds are secured"@,
                        now,
                        Some(a0.amount),
                        None::<String>,
                    )
                }),
            }
        }),
{
    if is_anonymous(caller) {
        return Err(LifecycleError::Unauthenticated);
    }
    let mut account = match store.get_escrow_account(escrow_id) {
        Some(a) => a,
        None => {
            return Err(LifecycleError::NotFound);
        },
    };
    if account.landlord != caller {
        return Err(LifecycleError::Forbidden);
    }
    if account.status != EscrowStatus::UnderReview {
        return Err(LifecycleError::InvalidState);
    }
    let amount = account.amount;
    account.approve_deposit(contract_address, now);
    let updated = account.clone();
    let upd = store.update_escrow_account(updated);
    proof {
        assert(upd is Ok);
    }
    let _ = store.add_timeline_event(
        escrow_id,
        EscrowEventType::LandlordApproval,
        "Deposit Approved".to_owned(),
        "Landlord has approved the security deposit and funds are secured".to_owned(),
        Some(amount),
        None,
        now,
    );
    Ok(account)
}

/// The landlord turns secured funds into active protection:
/// `FundsSecured` to `ActiveProtection`.
pub fn activate_escrow_protection(
    store: &mut Storage,
    caller: Identity,
    now: u64,
    escrow_id: u64,
) -> (r: Result<EscrowAccount, LifecycleError>)
    requires
        old(store).wf(),
        old(store).escrow_event_counter < u64::MAX,
    ensures
        final(store).wf(),
        ({
            let rej = escrow_rejection(
                *old(store),
                caller,
                escrow_id,
                EscrowActor::Landlord,
                EscrowStatus::FundsSecured,
            );
            match rej {
                Some(e) => r == Err::<EscrowAccount, LifecycleError>(e) && *final(store) == *old(store),
                None => ({
                    let a0 = escrow_at(old(store).escrow_accounts@, escrow_id);
                    let a1 = EscrowAccount {
                        status: EscrowStatus::ActiveProtection,
                        updated_at: now,
                        ..a0
                    };
                    &&& r == Ok::<EscrowAccount, LifecycleError>(a1)
                    &&& escrow_transitioned(
                        *old(store),
                        *final(store),
                        escrow_id,
                        a1,
                        EscrowEventType::LeaseActivated,
                        "Escrow Protection Activated"@,
                        "Escrow protection is now active for the duration of the lease"@,
                        now,
                        None::<u64>,
                        None::<String>,
                    )
                }),
            }
        }),
{
    if is_anonymous(caller) {
        return Err(LifecycleError::Unauthenticated);
    }
    let mut account = match store.get_escrow_account(escrow_id) {
        Some(a) => a,
        None => {
            return Err(LifecycleError::NotFound);
        },
    };
    if account.landlord != caller {
        return Err(LifecycleError::Forbidden);
    }
    if account.status != EscrowStatus::FundsSecured {
        return Err(LifecycleError::InvalidState);
    }
    account.activate_protection(now);
    let updated = account.clone();
    let upd = store.update_escrow_account(updated);
    proof {
        assert(upd is Ok);
    }
    let _ = store.add_timeline_event(
        escrow_id,
        EscrowEventType::LeaseActivated,
        "Escrow Protection Activated".to_owned(),
        "Escrow protection is now active for the duration of the lease".to_owned(),
        None,
        None,
        now,
    );
    Ok(account)
}

/// The landlord starts the refund at lease end: `ActiveProtection` to
/// `RefundProcessing`, recording the refund amount. The amount is
/// deliberately not checked against the deposit.
pub fn initiate_refund(
    store: &mut Storage,
    caller: Identity,
    now: u64,
    escrow_id: u64,
    refund_amount: u64,
) -> (r: Result<EscrowAccount, LifecycleError>)
    requires
        old(store).wf(),
        old(store).escrow_event_counter < u64::MAX,
    ensures
        final(store).wf(),
        ({
            let rej = escrow_rejection(
                *old(store),
                caller,
                escrow_id,
                EscrowActor::Landlord,
                EscrowStatus::ActiveProtection,
            );
            match rej {
                Some(e) => r == Err::<EscrowAccount, LifecycleError>(e) && *final(store) == *old(store),
                None => ({
                    let a0 = escrow_at(old(store).escrow_accounts@, escrow_id);
                    let a1 = EscrowAccount {
                        status: EscrowStatus::RefundProcessing,
                        refund_amount: Some(refund_amount),
                        updated_at: now,
                        ..a0
                    };
                    &&& r == Ok::<EscrowAccount, LifecycleError>(a1)
                    &&& escrow_transitioned(
                        *old(store),
                        *final(store),
                        escrow_id,
                        a1,
                        EscrowEventType::RefundInitiated,
                        "Refund Processing"@,
                        "Refund of the security deposit has been initiated"@,
                        now,
                        Some(refund_amount),
                        None::<String>,
                    )
                }),
            }
        }),
{
    if is_anonymous(caller) {
        return Err(LifecycleError::Unauthenticated);
    }
    let mut account = match store.get_escrow_account(escrow_id) {
        Some(a) => a,
        None => {
            return Err(LifecycleError::NotFound);
        },
    };
    if account.landlord != caller {
        return Err(LifecycleError::Forbidden);
    }
    if account.status != EscrowStatus::ActiveProtection {
        return Err(LifecycleError::InvalidState);
    }
    account.initiate_refund(refund_amount, now);
    let updated = account.clone();
    let upd = store.update_escrow_account(updated);
    proof {
        assert(upd is Ok);
    }
    let _ = store.add_timeline_event(
        escrow_id,
        EscrowEventType::RefundInitiated,
        "Refund Processing".to_owned(),
        "Refund of the security deposit has been initiated".to_owned(),
        Some(refund_amount),
        None,
        now,
    );
    Ok(account)
}

/// Finalizes the refund: `RefundProcessing` to `Completed`, recording the
/// release transaction hash. Either party or an automated agent may
/// finalize; only authentication is demanded.
pub fn complete_refund(
    store: &mut Storage,
    caller: Identity,
    now: u64,
    escrow_id: u64,
    transaction_hash: String,
) -> (r: Result<EscrowAccount, LifecycleError>)
    requires
        old(store).wf(),
        old(store).escrow_event_counter < u64::MAX,
    ensures
        final(store).wf(),
        ({
            let rej = escrow_rejection(
                *old(store),
                caller,
                escrow_id,
                EscrowActor::AnyAuthenticated,
                EscrowStatus::RefundProcessing,
            );
            match rej {
                Some(e) => r == Err::<EscrowAccount, LifecycleError>(e) && *final(store) == *old(store),
                None => ({
                    let a0 = escrow_at(old(store).escrow_accounts@, escrow_id);
                    let a1 = EscrowAccount {
                        status: EscrowStatus::Completed,
                        transaction_hash: Some(transaction_hash),
                        updated_at: now,
                        ..a0
                    };
                    &&& r == Ok::<EscrowAccount, LifecycleError>(a1)
                    &&& escrow_transitioned(
                        *old(store),
                        *final(store),
                        escrow_id,
                        a1,
                        EscrowEventType::RefundCompleted,
                        "Refund Completed"@,
                        "Security deposit refund has been completed successfully"@,
                        now,
                        a0.refund_amount,
                        Some(transaction_hash),
                    )
                }),
            }
        }),
{
    if is_anonymous(caller) {
        return Err(LifecycleError::Unauthenticated);
    }
    let mut account = match store.get_escrow_account(escrow_id) {
        Some(a) => a,
        None => {
            return Err(LifecycleError::NotFound);
        },
    };
    if account.status != EscrowStatus::RefundProcessing {
        return Err(LifecycleError::InvalidState);
    }
    let refund_amount = account.refund_amount;
    let tx_for_event = transaction_hash.clone();
    account.complete_refund(transaction_hash, now);
    let updated = account.clone();
    let upd = store.update_escrow_account(updated);
    proof {
        assert(upd is Ok);
    }
    let _ = store.add_timeline_event(
        escrow_id,
        EscrowEventType::RefundCompleted,
        "Refund Completed".to_owned(),
        "Security deposit refund has been completed successfully".to_owned(),
        refund_amount,
        Some(tx_for_event),
        now,
    );
    Ok(account)
}

/// Expires an account whose submission window lapsed unresolved. Any
/// authenticated caller may trigger it; the audit event carries no actor
/// attribution, and the record keeps its last update timestamp.
pub fn expire_escrow_account(
    store: &mut Storage,
    caller: Identity,
    now: u64,
    escrow_id: u64,
) -> (r: Result<EscrowAccount, LifecycleError>)
    requires
        old(store).wf(),
        old(store).escrow_event_counter < u64::MAX,
    ensures
        final(store).wf(),
        ({
            let rej = expiry_rejection(*old(store), caller, escrow_id, now);
            match rej {
                Some(e) => r == Err::<EscrowAccount, LifecycleError>(e) && *final(store) == *old(store),
                None => ({
                    let a0 = escrow_at(old(store).escrow_accounts@, escrow_id);
                    let a1 = EscrowAccount { status: EscrowStatus::Expired, ..a0 };
                    &&& r == Ok::<EscrowAccount, LifecycleError>(a1)
                    &&& escrow_transitioned(
                        *old(store),
                        *final(store),
                        escrow_id,
                        a1,
                        EscrowEventType::Expired,
                        "Escrow Expired"@,
                        "Escrow account expired due to deadline"@,
                        now,
                        None::<u64>,
                        None::<String>,
                    )
                }),
            }
        }),
{
    if is_anonymous(caller) {
        return Err(LifecycleError::Unauthenticated);
    }
    let mut account = match store.get_escrow_account(escrow_id) {
        Some(a) => a,
        None => {
            return Err(LifecycleError::NotFound);
        },
    };
    if now <= account.submission_deadline {
        return Err(LifecycleError::DeadlineNotReached);
    }
    let expirable = match account.status {
        EscrowStatus::PendingSubmission => true,
        EscrowStatus::UnderReview => true,
        EscrowStatus::Disputed => true,
        _ => false,
    };
    if !expirable {
        return Err(LifecycleError::InvalidState);
    }
    account.expire();
    let updated = account.clone();
    let upd = store.update_escrow_account(updated);
    proof {
        assert(upd is Ok);
    }
    let _ = store.add_timeline_event(
        escrow_id,
        EscrowEventType::Expired,
        "Escrow Expired".to_owned(),
        "Escrow account expired due to deadline".to_owned(),
        None,
        None,
        now,
    );
    Ok(account)
}

/// Raises a dispute with a free-text reason: either party, from any state
/// that is neither terminal nor already disputed, to `Disputed`.
pub fn raise_dispute(
    store: &mut Storage,
    caller: Identity,
    now: u64,
    escrow_id: u64,
    reason: String,
) -> (r: Result<EscrowAccount, LifecycleError>)
    requires
        old(store).wf(),
        old(store).escrow_event_counter < u64::MAX,
    ensures
        final(store).wf(),
        ({
            let rej = dispute_rejection(*old(store), caller, escrow_id);
            match rej {
                Some(e) => r == Err::<EscrowAccount, LifecycleError>(e) && *final(store) == *old(store),
                None => ({
                    let a0 = escrow_at(old(store).escrow_accounts@, escrow_id);
                    let a1 = EscrowAccount {
                        status: EscrowStatus::Disputed,
                        dispute_reason: Some(reason),
                        updated_at: now,
                        ..a0
                    };
                    &&& r == Ok::<EscrowAccount, LifecycleError>(a1)
                    &&& escrow_transitioned(
                        *old(store),
                        *final(store),
                        escrow_id,
                        a1,
                        EscrowEventType::DisputeRaised,
                        "Dispute Raised"@,
                        "A dispute has been raised on this escrow account"@,
                        now,
                        None::<u64>,
                        None::<String>,
                    )
                }),
            }
        }),
{
    if is_anonymous(caller) {
        return Err(LifecycleError::Unauthenticated);
    }
    let mut account = match store.get_escrow_account(escrow_id) {
        Some(a) => a,
        None => {
            return Err(LifecycleError::NotFound);
        },
    };
    if account.landlord != caller && account.tenant != caller {
        return Err(LifecycleError::Forbidden);
    }
    let disputable = match account.status {
        EscrowStatus::Completed => false,
        EscrowStatus::Cancelled => false,
        EscrowStatus::Expired => false,
        EscrowStatus::Disputed => false,
        _ => true,
    };
    if !disputable {
        return Err(LifecycleError::InvalidState);
    }
    account.raise_dispute(reason, now);
    let updated = account.clone();
    let upd = store.update_escrow_account(updated);
    proof {
        assert(upd is Ok);
    }
    let _ = store.add_timeline_event(
        escrow_id,
        EscrowEventType::DisputeRaised,
        "Dispute Raised".to_owned(),
        "A dispute has been raised on this escrow account".to_owned(),
        None,
        None,
        now,
    );
    Ok(account)
}

// ---------------------------------------------------------------------------
// Read paths: permissive for reads, an anonymous caller just sees nothing.
// ---------------------------------------------------------------------------

/// The accounts in which this identity takes part, its tenant accounts
/// first, then its landlord accounts.
pub fn get_escrow_accounts_for_user(store: &Storage, caller: Identity, user: Identity) -> (r: Vec<
    EscrowAccount,
>)
    ensures
        caller.is_anon() ==> r@ == Seq::<EscrowAccount>::empty(),
        !caller.is_anon() ==> r@ == accounts_of(store.escrow_accounts@, user, Role::Tenant)
            + accounts_of(store.escrow_accounts@, user, Role::Landlord),
{
    if is_anonymous(caller) {
        let empty: Vec<EscrowAccount> = Vec::new();
        proof {
            assert(empty@ =~= Seq::<EscrowAccount>::empty());
        }
        return empty;
    }
    let mut accounts = store.get_escrow_accounts_by_tenant(&user);
    let mut more = store.get_escrow_accounts_by_landlord(&user);
    accounts.append(&mut more);
    accounts
}

/// The accounts of one landlord, visible to any authenticated caller.
pub fn get_escrow_accounts_by_landlord(store: &Storage, caller: Identity, landlord: Identity) -> (r:
    Vec<EscrowAccount>)
    ensures
        caller.is_anon() ==> r@ == Seq::<EscrowAccount>::empty(),
        !caller.is_anon() ==> r@ == accounts_of(store.escrow_accounts@, landlord, Role::Landlord),
{
    if is_anonymous(caller) {
        let empty: Vec<EscrowAccount> = Vec::new();
        proof {
            assert(empty@ =~= Seq::<EscrowAccount>::empty());
        }
        return empty;
    }
    store.get_escrow_accounts_by_landlord(&landlord)
}

/// The accounts of one tenant, visible to any authenticated caller.
pub fn get_escrow_accounts_by_tenant(store: &Storage, caller: Identity, tenant: Identity) -> (r:
    Vec<EscrowAccount>)
    ensures
        caller.is_anon() ==> r@ == Seq::<EscrowAccount>::empty(),
        !caller.is_anon() ==> r@ == accounts_of(store.escrow_accounts@, tenant, Role::Tenant),
{
    if is_anonymous(caller) {
        let empty: Vec<EscrowAccount> = Vec::new();
        proof {
            assert(empty@ =~= Seq::<EscrowAccount>::empty());
        }
        return empty;
    }
    store.get_escrow_accounts_by_tenant(&tenant)
}

/// One account by id, or nothing for an anonymous caller.
pub fn get_escrow_account_by_id(store: &Storage, caller: Identity, id: u64) -> (r: Option<
    EscrowAccount,
>)
    requires
        store.wf(),
    ensures
        caller.is_anon() ==> r is None,
        !caller.is_anon() ==> r == (if has_escrow(store.escrow_accounts@, id) {
            Some(escrow_at(store.escrow_accounts@, id))
        } else {
            None::<EscrowAccount>
        }),
{
    if is_anonymous(caller) {
        return None;
    }
    store.get_escrow_account(id)
}

/// The audit trail of one account in insertion order, or nothing for an
/// anonymous caller.
pub fn get_escrow_timeline_events(store: &Storage, caller: Identity, escrow_id: u64) -> (r: Vec<
    EscrowTimelineEvent,
>)
    ensures
        caller.is_anon() ==> r@ == Seq::<EscrowTimelineEvent>::empty(),
        !caller.is_anon() ==> r@ == store.escrow_events@.filter(
            |e: EscrowTimelineEvent| e.escrow_id == escrow_id,
        ),
{
    if is_anonymous(caller) {
        let empty: Vec<EscrowTimelineEvent> = Vec::new();
        proof {
            assert(empty@ =~= Seq::<EscrowTimelineEvent>::empty());
        }
        return empty;
    }
    store.get_timeline_events_by_escrow(escrow_id)
}

/// The five dashboard counters for one identity. The role whose accounts
/// are counted is picked by presence: whichever role has more matching
/// records, the tenant side winning ties. An explicit role parameter would
/// be sounder; this mirrors the call signature, which cannot disambiguate.
pub fn get_user_escrow_statistics(store: &Storage, caller: Identity, user: Identity, now: u64) -> (r:
    (u64, u64, u64, u64, u64))
    ensures
        caller.is_anon() ==> r == (0u64, 0u64, 0u64, 0u64, 0u64),
        !caller.is_anon() ==> ({
            let tenant_side = accounts_of(store.escrow_accounts@, user, Role::Tenant);
            let landlord_side = accounts_of(store.escrow_accounts@, user, Role::Landlord);
            let f = if tenant_side.len() >= landlord_side.len() {
                tenant_side
            } else {
                landlord_side
            };
            &&& r.0 == f.len()
            &&& r.1 == f.filter(
                |a: EscrowAccount|
                    a.status == EscrowStatus::ActiveProtection || a.status
                        == EscrowStatus::FundsSecured,
            ).len()
            &&& r.2 == f.filter(
                |a: EscrowAccount|
                    a.status == EscrowStatus::PendingSubmission || a.status
                        == EscrowStatus::UnderReview,
            ).len()
            &&& r.3 == f.filter(|a: EscrowAccount| a.status == EscrowStatus::Completed).len()
            &&& r.4 == f.filter(|a: EscrowAccount| a.spec_is_overdue(now)).len()
        }),
{
    if is_anonymous(caller) {
        return (0, 0, 0, 0, 0);
    }
    let tenant_accounts = store.get_escrow_accounts_by_tenant(&user);
    let landlord_accounts = store.get_escrow_accounts_by_landlord(&user);
    if tenant_accounts.len() >= landlord_accounts.len() {
        store.get_escrow_stats_by_user(&user, Role::Tenant, now)
    } else {
        store.get_escrow_stats_by_user(&user, Role::Landlord, now)
    }
}

// ---------------------------------------------------------------------------
// Laws of the escrow lifecycle.
// ---------------------------------------------------------------------------

/// The audit trail of one account: its events in insertion order.
pub open spec fn events_for(s: Storage, escrow_id: u64) -> Seq<EscrowTimelineEvent> {
    s.escrow_events@.filter(|e: EscrowTimelineEvent| e.escrow_id == escrow_id)
}

/// Every escrow account on file carries its submission deadline exactly
/// one window after its creation instant; since every operation keeps the
/// store well-formed, the deadline set at creation is never recomputed.
pub proof fn lemma_submission_deadline_invariant(s: Storage, i: int)
    requires
        s.wf(),
        0 <= i < s.escrow_accounts@.len(),
    ensures
        s.escrow_accounts@[i].submission_deadline == s.escrow_accounts@[i].created_at
            + SUBMISSION_WINDOW_NS,
{
}

/// A successful transition appends exactly one event to the audit trail of
/// the account it touched, at the end and carrying the transition's
/// timestamp, and leaves every other account's trail unchanged.
pub proof fn lemma_transition_appends_one_event(
    s0: Storage,
    s1: Storage,
    escrow_id: u64,
    a1: EscrowAccount,
    event_type: EscrowEventType,
    title: Seq<char>,
    description: Seq<char>,
    now: u64,
    amount: Option<u64>,
    transaction_hash: Option<String>,
    other_id: u64,
)
    requires
        escrow_transitioned(
            s0,
            s1,
            escrow_id,
            a1,
            event_type,
            title,
            description,
            now,
            amount,
            transaction_hash,
        ),
        other_id != escrow_id,
    ensures
        events_for(s1, escrow_id) == events_for(s0, escrow_id).push(s1.escrow_events@.last()),
        events_for(s1, escrow_id).len() == events_for(s0, escrow_id).len() + 1,
        s1.escrow_events@.last().timestamp == now,
        events_for(s1, other_id) == events_for(s0, other_id),
{
    let ev = s1.escrow_events@.last();
    crate::storage::lemma_filter_push(
        s0.escrow_events@,
        ev,
        |e: EscrowTimelineEvent| e.escrow_id == escrow_id,
    );
    crate::storage::lemma_filter_push(
        s0.escrow_events@,
        ev,
        |e: EscrowTimelineEvent| e.escrow_id == other_id,
    );
}

/// Expiry succeeds at most once: after a successful expiry of an account,
/// a second expiry call on that account, at any later instant and for any
/// authenticated caller, is rejected as an invalid state.
pub proof fn lemma_expire_only_once(
    s0: Storage,
    s1: Storage,
    caller: Identity,
    now: u64,
    caller2: Identity,
    now2: u64,
    escrow_id: u64,
)
    requires
        s0.wf(),
        expiry_rejection(s0, caller, escrow_id, now) is None,
        s1.escrow_accounts@ == s0.escrow_accounts@.update(
            escrow_idx(s0.escrow_accounts@, escrow_id),
            (EscrowAccount {
                status: EscrowStatus::Expired,
                ..escrow_at(s0.escrow_accounts@, escrow_id)
            }),
        ),
        !caller2.is_anon(),
        now2 >= now,
    ensures
        expiry_rejection(s1, caller2, escrow_id, now2) == Some(LifecycleError::InvalidState),
{
    let k = escrow_idx(s0.escrow_accounts@, escrow_id);
    assert(has_escrow(s0.escrow_accounts@, escrow_id));
    assert(0 <= k < s0.escrow_accounts@.len() && s0.escrow_accounts@[k].id == escrow_id);
    assert(s1.escrow_accounts@[k].id == escrow_id);
    assert(has_escrow(s1.escrow_accounts@, escrow_id));
    let j = escrow_idx(s1.escrow_accounts@, escrow_id);
    assert(0 <= j < s1.escrow_accounts@.len() && s1.escrow_accounts@[j].id == escrow_id);
    assert(j == k) by {
        if j != k {
            assert(s0.escrow_accounts@[j].id == s1.escrow_accounts@[j].id);
        }
    }
    assert(escrow_at(s1.escrow_accounts@, escrow_id).status == EscrowStatus::Expired);
    assert(now2 > escrow_at(s1.escrow_accounts@, escrow_id).submission_deadline);
}

} // verus!
