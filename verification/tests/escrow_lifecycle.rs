//! The escrow state machine end to end: custody from submission through
//! refund, expiry, disputes, and the audit trail.

use aangan_backend::auth::Identity;
use aangan_backend::errors::LifecycleError;
use aangan_backend::escrow::{EscrowEventType, EscrowStatus, SUBMISSION_WINDOW_NS};
use aangan_backend::escrow_api::{
    activate_escrow_protection, approve_security_deposit, complete_refund, create_escrow_account,
    expire_escrow_account, get_escrow_account_by_id, get_escrow_accounts_for_user,
    get_escrow_timeline_events, get_user_escrow_statistics, initiate_refund, raise_dispute,
    submit_security_deposit, CreateEscrowRequest,
};
use aangan_backend::storage::{init_storage, Storage};

const T0: u64 = 1_700_000_000_000_000_000;
const HOUR: u64 = 3_600_000_000_000;
const DAY: u64 = 24 * HOUR;

fn landlord() -> Identity {
    Identity { raw: 11 }
}

fn tenant() -> Identity {
    Identity { raw: 22 }
}

fn stranger() -> Identity {
    Identity { raw: 33 }
}

fn anon() -> Identity {
    Identity { raw: 0 }
}

fn new_escrow(store: &mut Storage, amount: u64, now: u64) -> u64 {
    let request = CreateEscrowRequest {
        rental_id: 1,
        property_id: 1,
        landlord: landlord(),
        tenant: tenant(),
        amount,
    };
    create_escrow_account(store, tenant(), now, request)
        .expect("escrow creation for an authenticated caller")
        .id
}

#[test]
fn escrow_creation_sets_deadline_exactly_one_window_out() {
    let mut store = init_storage();
    let id = new_escrow(&mut store, 500, T0);
    let account = get_escrow_account_by_id(&store, tenant(), id).unwrap();
    assert_eq!(account.status, EscrowStatus::PendingSubmission);
    assert_eq!(account.created_at, T0);
    assert_eq!(account.submission_deadline, T0 + 7 * 24 * 3600 * 1_000_000_000);
    assert_eq!(SUBMISSION_WINDOW_NS, 604_800_000_000_000);
}

#[test]
fn deadline_never_moves_across_transitions() {
    let mut store = init_storage();
    let id = new_escrow(&mut store, 500, T0);
    submit_security_deposit(&mut store, tenant(), T0 + HOUR, id, "0xabc".to_string()).unwrap();
    approve_security_deposit(&mut store, landlord(), T0 + 2 * HOUR, id, "ct-1".to_string())
        .unwrap();
    activate_escrow_protection(&mut store, landlord(), T0 + 3 * HOUR, id).unwrap();
    initiate_refund(&mut store, landlord(), T0 + 4 * HOUR, id, 450).unwrap();
    let account = complete_refund(&mut store, stranger(), T0 + 5 * HOUR, id, "0xdef".to_string())
        .unwrap();
    assert_eq!(account.submission_deadline, T0 + SUBMISSION_WINDOW_NS);
    assert_eq!(account.created_at, T0);
}

#[test]
fn full_custody_walk_records_every_field() {
    let mut store = init_storage();
    let id = new_escrow(&mut store, 500, T0);

    let a = submit_security_deposit(&mut store, tenant(), T0 + HOUR, id, "0xabc".to_string())
        .unwrap();
    assert_eq!(a.status, EscrowStatus::UnderReview);
    assert_eq!(a.transaction_hash.as_deref(), Some("0xabc"));
    assert_eq!(a.updated_at, T0 + HOUR);

    let a = approve_security_deposit(&mut store, landlord(), T0 + 2 * HOUR, id, "ct-9".to_string())
        .unwrap();
    assert_eq!(a.status, EscrowStatus::FundsSecured);
    assert_eq!(a.smart_contract_address.as_deref(), Some("ct-9"));

    let a = activate_escrow_protection(&mut store, landlord(), T0 + 3 * HOUR, id).unwrap();
    assert_eq!(a.status, EscrowStatus::ActiveProtection);

    let a = initiate_refund(&mut store, landlord(), T0 + 4 * HOUR, id, 450).unwrap();
    assert_eq!(a.status, EscrowStatus::RefundProcessing);
    assert_eq!(a.refund_amount, Some(450));

    let a = complete_refund(&mut store, tenant(), T0 + 5 * HOUR, id, "0xdef".to_string()).unwrap();
    assert_eq!(a.status, EscrowStatus::Completed);
    assert_eq!(a.transaction_hash.as_deref(), Some("0xdef"));
    // the submission hash was replaced by the release hash, by design
    assert_eq!(a.refund_amount, Some(450));
}

#[test]
fn audit_trail_grows_by_exactly_one_entry_per_transition() {
    let mut store = init_storage();
    let id = new_escrow(&mut store, 500, T0);
    assert_eq!(get_escrow_timeline_events(&store, tenant(), id).len(), 1);

    submit_security_deposit(&mut store, tenant(), T0 + HOUR, id, "0xabc".to_string()).unwrap();
    approve_security_deposit(&mut store, landlord(), T0 + 2 * HOUR, id, "ct".to_string()).unwrap();
    activate_escrow_protection(&mut store, landlord(), T0 + 3 * HOUR, id).unwrap();
    initiate_refund(&mut store, landlord(), T0 + 4 * HOUR, id, 500).unwrap();
    complete_refund(&mut store, tenant(), T0 + 5 * HOUR, id, "0xdef".to_string()).unwrap();

    let events = get_escrow_timeline_events(&store, tenant(), id);
    assert_eq!(events.len(), 6);
    let kinds: Vec<EscrowEventType> = events.iter().map(|e| e.event_type).collect();
    assert_eq!(
        kinds,
        vec![
            EscrowEventType::Created,
            EscrowEventType::DepositSubmitted,
            EscrowEventType::LandlordApproval,
            EscrowEventType::LeaseActivated,
            EscrowEventType::RefundInitiated,
            EscrowEventType::RefundCompleted,
        ]
    );
    // insertion order agrees with the event ids
    for pair in events.windows(2) {
        assert!(pair[0].id < pair[1].id);
    }
    // each event carries the timestamp of its transition, never older than
    // the account's update instant at the moment of the append
    assert_eq!(events[1].timestamp, T0 + HOUR);
    assert_eq!(events[5].timestamp, T0 + 5 * HOUR);
    let account = get_escrow_account_by_id(&store, tenant(), id).unwrap();
    assert!(events[5].timestamp >= account.updated_at);
}

#[test]
fn audit_events_carry_amounts_and_references() {
    let mut store = init_storage();
    let id = new_escrow(&mut store, 500, T0);
    submit_security_deposit(&mut store, tenant(), T0 + HOUR, id, "0xabc".to_string()).unwrap();
    let events = get_escrow_timeline_events(&store, tenant(), id);
    assert_eq!(events[0].event_type, EscrowEventType::Created);
    assert_eq!(events[0].title, "Escrow Account Created");
    assert_eq!(events[0].amount, Some(500));
    assert_eq!(events[0].transaction_hash, None);
    assert_eq!(events[1].title, "Security Deposit Submitted");
    assert_eq!(events[1].amount, Some(500));
    assert_eq!(events[1].transaction_hash.as_deref(), Some("0xabc"));
}

#[test]
fn forbidden_caller_matrix_for_escrow_transitions() {
    let mut store = init_storage();
    let id = new_escrow(&mut store, 500, T0);

    // only the tenant may submit
    let r = submit_security_deposit(&mut store, landlord(), T0 + HOUR, id, "0x".to_string());
    assert_eq!(r.unwrap_err(), LifecycleError::Forbidden);
    let r = submit_security_deposit(&mut store, stranger(), T0 + HOUR, id, "0x".to_string());
    assert_eq!(r.unwrap_err(), LifecycleError::Forbidden);
    submit_security_deposit(&mut store, tenant(), T0 + HOUR, id, "0x".to_string()).unwrap();

    // only the landlord may approve
    let r = approve_security_deposit(&mut store, tenant(), T0 + HOUR, id, "ct".to_string());
    assert_eq!(r.unwrap_err(), LifecycleError::Forbidden);
    approve_security_deposit(&mut store, landlord(), T0 + HOUR, id, "ct".to_string()).unwrap();

    // only the landlord may activate protection
    let r = activate_escrow_protection(&mut store, tenant(), T0 + HOUR, id);
    assert_eq!(r.unwrap_err(), LifecycleError::Forbidden);
    activate_escrow_protection(&mut store, landlord(), T0 + HOUR, id).unwrap();

    // only the landlord may initiate the refund
    let r = initiate_refund(&mut store, tenant(), T0 + HOUR, id, 1);
    assert_eq!(r.unwrap_err(), LifecycleError::Forbidden);

    // only a party may raise a dispute
    let r = raise_dispute(&mut store, stranger(), T0 + HOUR, id, "damage".to_string());
    assert_eq!(r.unwrap_err(), LifecycleError::Forbidden);
}

#[test]
fn anonymous_callers_are_rejected_on_every_write() {
    let mut store = init_storage();
    let id = new_escrow(&mut store, 500, T0);
    let request = CreateEscrowRequest {
        rental_id: 2,
        property_id: 2,
        landlord: landlord(),
        tenant: tenant(),
        amount: 1,
    };
    assert_eq!(
        create_escrow_account(&mut store, anon(), T0, request).unwrap_err(),
        LifecycleError::Unauthenticated
    );
    assert_eq!(
        submit_security_deposit(&mut store, anon(), T0, id, "0x".to_string()).unwrap_err(),
        LifecycleError::Unauthenticated
    );
    assert_eq!(
        approve_security_deposit(&mut store, anon(), T0, id, "c".to_string()).unwrap_err(),
        LifecycleError::Unauthenticated
    );
    assert_eq!(
        activate_escrow_protection(&mut store, anon(), T0, id).unwrap_err(),
        LifecycleError::Unauthenticated
    );
    assert_eq!(
        initiate_refund(&mut store, anon(), T0, id, 1).unwrap_err(),
        LifecycleError::Unauthenticated
    );
    assert_eq!(
        complete_refund(&mut store, anon(), T0, id, "0x".to_string()).unwrap_err(),
        LifecycleError::Unauthenticated
    );
    assert_eq!(
        expire_escrow_account(&mut store, anon(), T0 + 8 * DAY, id).unwrap_err(),
        LifecycleError::Unauthenticated
    );
    assert_eq!(
        raise_dispute(&mut store, anon(), T0, id, "r".to_string()).unwrap_err(),
        LifecycleError::Unauthenticated
    );
}

#[test]
fn unknown_ids_are_not_found() {
    let mut store = init_storage();
    assert_eq!(
        submit_security_deposit(&mut store, tenant(), T0, 77, "0x".to_string()).unwrap_err(),
        LifecycleError::NotFound
    );
    assert_eq!(
        expire_escrow_account(&mut store, tenant(), T0, 77).unwrap_err(),
        LifecycleError::NotFound
    );
    assert!(get_escrow_account_by_id(&store, tenant(), 77).is_none());
}

#[test]
fn wrong_state_transitions_are_invalid() {
    let mut store = init_storage();
    let id = new_escrow(&mut store, 500, T0);
    // approval before submission
    assert_eq!(
        approve_security_deposit(&mut store, landlord(), T0, id, "c".to_string()).unwrap_err(),
        LifecycleError::InvalidState
    );
    submit_security_deposit(&mut store, tenant(), T0, id, "0x".to_string()).unwrap();
    // second submission
    assert_eq!(
        submit_security_deposit(&mut store, tenant(), T0, id, "0x".to_string()).unwrap_err(),
        LifecycleError::InvalidState
    );
    // refund before protection
    assert_eq!(
        initiate_refund(&mut store, landlord(), T0, id, 1).unwrap_err(),
        LifecycleError::InvalidState
    );
    assert_eq!(
        complete_refund(&mut store, landlord(), T0, id, "0x".to_string()).unwrap_err(),
        LifecycleError::InvalidState
    );
}

#[test]
fn expiry_scenario_matches_the_deadline_and_exclusion_set() {
    let mut store = init_storage();
    let id = new_escrow(&mut store, 500, T0);
    submit_security_deposit(&mut store, tenant(), T0 + HOUR, id, "0xabc".to_string()).unwrap();
    let account = get_escrow_account_by_id(&store, tenant(), id).unwrap();
    assert_eq!(account.status, EscrowStatus::UnderReview);

    // an hour in, the deadline has not passed
    assert_eq!(
        expire_escrow_account(&mut store, tenant(), T0 + HOUR, id).unwrap_err(),
        LifecycleError::DeadlineNotReached
    );

    // eight days in, a still-under-review account does expire: review has
    // not secured the funds, so it is not in the resolved set
    let account = expire_escrow_account(&mut store, stranger(), T0 + 8 * DAY, id).unwrap();
    assert_eq!(account.status, EscrowStatus::Expired);
    // expiry leaves the update instant alone and carries no actor
    assert_eq!(account.updated_at, T0 + HOUR);
    let events = get_escrow_timeline_events(&store, tenant(), id);
    assert_eq!(events.last().unwrap().event_type, EscrowEventType::Expired);
    assert_eq!(events.last().unwrap().amount, None);
    assert_eq!(events.last().unwrap().transaction_hash, None);
}

#[test]
fn expiry_succeeds_once_then_reports_invalid_state() {
    let mut store = init_storage();
    let id = new_escrow(&mut store, 500, T0);
    assert!(expire_escrow_account(&mut store, tenant(), T0 + 8 * DAY, id).is_ok());
    assert_eq!(
        expire_escrow_account(&mut store, tenant(), T0 + 8 * DAY, id).unwrap_err(),
        LifecycleError::InvalidState
    );
}

#[test]
fn secured_funds_do_not_expire() {
    let mut store = init_storage();
    let id = new_escrow(&mut store, 500, T0);
    submit_security_deposit(&mut store, tenant(), T0, id, "0x".to_string()).unwrap();
    approve_security_deposit(&mut store, landlord(), T0, id, "ct".to_string()).unwrap();
    assert_eq!(
        expire_escrow_account(&mut store, tenant(), T0 + 8 * DAY, id).unwrap_err(),
        LifecycleError::InvalidState
    );
}

#[test]
fn dispute_from_active_states_only() {
    let mut store = init_storage();
    let id = new_escrow(&mut store, 500, T0);
    let a = raise_dispute(&mut store, tenant(), T0 + HOUR, id, "leak".to_string()).unwrap();
    assert_eq!(a.status, EscrowStatus::Disputed);
    assert_eq!(a.dispute_reason.as_deref(), Some("leak"));
    // not twice
    assert_eq!(
        raise_dispute(&mut store, landlord(), T0 + HOUR, id, "again".to_string()).unwrap_err(),
        LifecycleError::InvalidState
    );
    let events = get_escrow_timeline_events(&store, tenant(), id);
    assert_eq!(events.last().unwrap().event_type, EscrowEventType::DisputeRaised);
}

#[test]
fn statistics_bucket_accounts_by_status() {
    let mut store = init_storage();
    let a = new_escrow(&mut store, 100, T0);
    let b = new_escrow(&mut store, 200, T0);
    let c = new_escrow(&mut store, 300, T0);
    submit_security_deposit(&mut store, tenant(), T0, b, "0x".to_string()).unwrap();
    submit_security_deposit(&mut store, tenant(), T0, c, "0x".to_string()).unwrap();
    approve_security_deposit(&mut store, landlord(), T0, c, "ct".to_string()).unwrap();

    // tenant and landlord have the same accounts; the tie goes to the
    // tenant side
    let (total, active, pending, completed, overdue) =
        get_user_escrow_statistics(&store, tenant(), tenant(), T0);
    assert_eq!(total, 3);
    assert_eq!(active, 1); // c: funds secured
    assert_eq!(pending, 2); // a: pending submission, b: under review
    assert_eq!(completed, 0);
    assert_eq!(overdue, 0);

    // past the deadline the still-pending account counts overdue
    let (_, _, _, _, overdue) =
        get_user_escrow_statistics(&store, tenant(), tenant(), T0 + 8 * DAY);
    assert_eq!(overdue, 1);
    let _ = a;
}

#[test]
fn transitions_leave_other_accounts_and_their_trails_alone() {
    let mut store = init_storage();
    let first = new_escrow(&mut store, 100, T0);
    let second = new_escrow(&mut store, 200, T0);
    submit_security_deposit(&mut store, tenant(), T0 + HOUR, first, "0x1".to_string()).unwrap();
    approve_security_deposit(&mut store, landlord(), T0 + 2 * HOUR, first, "ct".to_string())
        .unwrap();
    assert_eq!(get_escrow_timeline_events(&store, tenant(), first).len(), 3);
    assert_eq!(get_escrow_timeline_events(&store, tenant(), second).len(), 1);
    let untouched = get_escrow_account_by_id(&store, tenant(), second).unwrap();
    assert_eq!(untouched.status, EscrowStatus::PendingSubmission);
    assert_eq!(untouched.updated_at, T0);
}

#[test]
fn reads_are_permissive_but_empty_for_anonymous_callers() {
    let mut store = init_storage();
    let id = new_escrow(&mut store, 500, T0);
    assert!(get_escrow_account_by_id(&store, anon(), id).is_none());
    assert!(get_escrow_accounts_for_user(&store, anon(), tenant()).is_empty());
    assert!(get_escrow_timeline_events(&store, anon(), id).is_empty());
    assert_eq!(get_user_escrow_statistics(&store, anon(), tenant(), T0), (0, 0, 0, 0, 0));
    assert_eq!(get_escrow_accounts_for_user(&store, tenant(), tenant()).len(), 1);
}
