//! The rental state machine: request, review, approval, confirmation with
//! receipt minting, rejection and cancellation, and the property
//! availability side effects.

use aangan_backend::auth::Identity;
use aangan_backend::errors::LifecycleError;
use aangan_backend::nft_api::{get_my_nfts, get_nft_by_id, get_nft_metadata};
use aangan_backend::property::PropertyType;
use aangan_backend::property_api::{add_property, get_property_by_id};
use aangan_backend::rental::RentalStatus;
use aangan_backend::rental_api::{
    approve_rental_request, cancel_rental, confirm_rental, get_approved_rentals, get_my_rentals,
    get_pending_rental_requests, get_rental_by_id, mark_rental_under_review, reject_rental_request,
    request_rental,
};
use aangan_backend::rental_manager::activate_rental;
use aangan_backend::storage::{init_storage, Storage};
use aangan_backend::user::Role;
use aangan_backend::user_api::create_user;

const T0: u64 = 1_700_000_000_000_000_000;
const HOUR: u64 = 3_600_000_000_000;

fn landlord() -> Identity {
    Identity { raw: 11 }
}

fn tenant() -> Identity {
    Identity { raw: 22 }
}

fn stranger() -> Identity {
    Identity { raw: 33 }
}

fn anon() -> Identity {
    Identity { raw: 0 }
}

/// A store with one landlord, one tenant, and one listed property; hands
/// back the property id.
fn setup(store: &mut Storage) -> u64 {
    create_user(store, landlord(), T0, Role::Landlord, Some("L".to_string()), None, None).unwrap();
    create_user(store, tenant(), T0, Role::Tenant, Some("T".to_string()), None, None).unwrap();
    let property = add_property(
        store,
        landlord(),
        T0,
        "Garden flat".to_string(),
        "Two rooms".to_string(),
        "5 Rose Lane".to_string(),
        1000,
        500,
        PropertyType::Apartment,
        2,
        1,
        560,
        vec!["img-a".to_string()],
        vec!["balcony".to_string()],
    )
    .unwrap();
    property.id
}

#[test]
fn request_approve_confirm_scenario() {
    let mut store = init_storage();
    let pid = setup(&mut store);

    let rental = request_rental(&mut store, tenant(), T0 + HOUR, pid, 100, 200).unwrap();
    assert_eq!(rental.status, RentalStatus::Requested);
    assert_eq!(rental.rent_amount, 1000);
    assert_eq!(rental.deposit_amount, 500);
    assert_eq!(rental.landlord, landlord());
    assert_eq!(rental.tenant, tenant());
    assert!(rental.nft_id.is_none());
    assert!(!get_property_by_id(&store, pid).unwrap().is_available);

    let rental = approve_rental_request(&mut store, landlord(), T0 + 2 * HOUR, rental.id).unwrap();
    assert_eq!(rental.status, RentalStatus::Approved);

    let rental = confirm_rental(&mut store, tenant(), T0 + 3 * HOUR, rental.id).unwrap();
    assert_eq!(rental.status, RentalStatus::Confirmed);
    assert!(rental.nft_id.is_some());

    // the landlord cannot approve again
    assert_eq!(
        approve_rental_request(&mut store, landlord(), T0 + 4 * HOUR, rental.id).unwrap_err(),
        LifecycleError::InvalidState
    );
    // confirming left availability alone: it was already off the market
    assert!(!get_property_by_id(&store, pid).unwrap().is_available);
}

#[test]
fn confirmation_mints_the_receipt_record() {
    let mut store = init_storage();
    let pid = setup(&mut store);
    let rental = request_rental(&mut store, tenant(), T0, pid, 100, 200).unwrap();
    approve_rental_request(&mut store, landlord(), T0, rental.id).unwrap();
    let rental = confirm_rental(&mut store, tenant(), T0 + HOUR, rental.id).unwrap();
    let nft_id = rental.nft_id.unwrap();

    let nft = get_nft_by_id(&store, tenant(), nft_id).unwrap();
    assert_eq!(nft.owner, tenant());
    assert_eq!(nft.property_id, pid);
    assert_eq!(nft.rental_agreement_id, rental.id);
    assert_eq!(nft.name, "Rental Agreement NFT - Garden flat");
    assert_eq!(
        nft.description,
        "This NFT represents a rental agreement for the property at 5 Rose Lane"
    );
    assert_eq!(nft.image, "img-a");
    assert_eq!(nft.attributes.len(), 6);
    assert_eq!(nft.attributes[0].trait_type, "Property ID");
    assert_eq!(nft.attributes[0].value, format!("{}", pid));
    assert_eq!(nft.attributes[3].trait_type, "Monthly Rent");
    assert_eq!(nft.attributes[3].value, "1000");
    assert_eq!(nft.attributes[4].value, "100");
    assert_eq!(nft.attributes[5].value, "200");

    // the receipt is visible to its owner, gated for others
    assert_eq!(get_my_nfts(&store, tenant()).unwrap().len(), 1);
    assert_eq!(get_nft_by_id(&store, landlord(), nft_id).unwrap_err(), LifecycleError::Forbidden);
    assert!(get_nft_metadata(&store, nft_id).is_ok());
    assert_eq!(get_nft_metadata(&store, 99).unwrap_err(), LifecycleError::NotFound);
}

#[test]
fn landlord_may_confirm_straight_from_requested() {
    let mut store = init_storage();
    let pid = setup(&mut store);
    let rental = request_rental(&mut store, tenant(), T0, pid, 100, 200).unwrap();
    // the legacy path: no approval step in between
    let rental = confirm_rental(&mut store, landlord(), T0 + HOUR, rental.id).unwrap();
    assert_eq!(rental.status, RentalStatus::Confirmed);
}

#[test]
fn tenant_may_confirm_only_after_approval() {
    let mut store = init_storage();
    let pid = setup(&mut store);
    let rental = request_rental(&mut store, tenant(), T0, pid, 100, 200).unwrap();
    assert_eq!(
        confirm_rental(&mut store, tenant(), T0, rental.id).unwrap_err(),
        LifecycleError::InvalidState
    );
}

#[test]
fn review_path_requested_to_under_review_to_approved() {
    let mut store = init_storage();
    let pid = setup(&mut store);
    let rental = request_rental(&mut store, tenant(), T0, pid, 100, 200).unwrap();

    assert_eq!(
        mark_rental_under_review(&mut store, tenant(), T0, rental.id).unwrap_err(),
        LifecycleError::Forbidden
    );
    let rental = mark_rental_under_review(&mut store, landlord(), T0 + HOUR, rental.id).unwrap();
    assert_eq!(rental.status, RentalStatus::UnderReview);
    // only from requested
    assert_eq!(
        mark_rental_under_review(&mut store, landlord(), T0, rental.id).unwrap_err(),
        LifecycleError::InvalidState
    );
    let rental = approve_rental_request(&mut store, landlord(), T0 + 2 * HOUR, rental.id).unwrap();
    assert_eq!(rental.status, RentalStatus::Approved);
}

#[test]
fn rejection_returns_the_property_to_the_market() {
    let mut store = init_storage();
    let pid = setup(&mut store);
    let rental = request_rental(&mut store, tenant(), T0, pid, 100, 200).unwrap();
    assert!(!get_property_by_id(&store, pid).unwrap().is_available);

    assert_eq!(
        reject_rental_request(&mut store, tenant(), T0, rental.id).unwrap_err(),
        LifecycleError::Forbidden
    );
    let rental = reject_rental_request(&mut store, landlord(), T0 + HOUR, rental.id).unwrap();
    assert_eq!(rental.status, RentalStatus::Cancelled);
    assert!(get_property_by_id(&store, pid).unwrap().is_available);
}

#[test]
fn cancellation_returns_the_property_and_spares_active_rentals() {
    let mut store = init_storage();
    let pid = setup(&mut store);
    let rental = request_rental(&mut store, tenant(), T0, pid, 100, 200).unwrap();

    assert_eq!(
        cancel_rental(&mut store, stranger(), T0, rental.id).unwrap_err(),
        LifecycleError::Forbidden
    );
    let cancelled = cancel_rental(&mut store, tenant(), T0 + HOUR, rental.id).unwrap();
    assert_eq!(cancelled.status, RentalStatus::Cancelled);
    assert!(get_property_by_id(&store, pid).unwrap().is_available);

    // a confirmed and activated agreement cannot be cancelled
    let rental = request_rental(&mut store, tenant(), T0, pid, 100, 200).unwrap();
    confirm_rental(&mut store, landlord(), T0, rental.id).unwrap();
    activate_rental(&mut store, T0 + HOUR, rental.id).unwrap();
    assert_eq!(
        cancel_rental(&mut store, tenant(), T0, rental.id).unwrap_err(),
        LifecycleError::InvalidState
    );
}

#[test]
fn activation_requires_confirmation_first() {
    let mut store = init_storage();
    let pid = setup(&mut store);
    let rental = request_rental(&mut store, tenant(), T0, pid, 100, 200).unwrap();
    assert_eq!(
        activate_rental(&mut store, T0, rental.id).unwrap_err(),
        LifecycleError::InvalidState
    );
    confirm_rental(&mut store, landlord(), T0, rental.id).unwrap();
    assert!(activate_rental(&mut store, T0 + HOUR, rental.id).is_ok());
    let rental = get_rental_by_id(&store, tenant(), rental.id).unwrap();
    assert_eq!(rental.status, RentalStatus::Active);
    assert_eq!(activate_rental(&mut store, T0, 99).unwrap_err(), LifecycleError::NotFound);
}

#[test]
fn a_property_carries_at_most_one_open_agreement() {
    let mut store = init_storage();
    let pid = setup(&mut store);
    let first = request_rental(&mut store, tenant(), T0, pid, 100, 200).unwrap();
    // the listing is off the market now
    assert_eq!(
        request_rental(&mut store, tenant(), T0, pid, 100, 200).unwrap_err(),
        LifecycleError::InvalidState
    );
    // cancelling frees it again
    cancel_rental(&mut store, tenant(), T0, first.id).unwrap();
    assert!(request_rental(&mut store, tenant(), T0, pid, 100, 200).is_ok());
}

#[test]
fn only_registered_tenants_may_request() {
    let mut store = init_storage();
    let pid = setup(&mut store);
    assert_eq!(
        request_rental(&mut store, anon(), T0, pid, 1, 2).unwrap_err(),
        LifecycleError::Unauthenticated
    );
    assert_eq!(
        request_rental(&mut store, stranger(), T0, pid, 1, 2).unwrap_err(),
        LifecycleError::NotFound
    );
    assert_eq!(
        request_rental(&mut store, landlord(), T0, pid, 1, 2).unwrap_err(),
        LifecycleError::Forbidden
    );
    assert_eq!(
        request_rental(&mut store, tenant(), T0, 99, 1, 2).unwrap_err(),
        LifecycleError::NotFound
    );
}

#[test]
fn rental_views_are_gated_by_participation() {
    let mut store = init_storage();
    let pid = setup(&mut store);
    let rental = request_rental(&mut store, tenant(), T0, pid, 100, 200).unwrap();

    assert!(get_rental_by_id(&store, tenant(), rental.id).is_ok());
    assert!(get_rental_by_id(&store, landlord(), rental.id).is_ok());
    assert_eq!(
        get_rental_by_id(&store, stranger(), rental.id).unwrap_err(),
        LifecycleError::Forbidden
    );
    assert_eq!(get_rental_by_id(&store, tenant(), 99).unwrap_err(), LifecycleError::NotFound);

    assert_eq!(get_my_rentals(&store, tenant()).len(), 1);
    assert_eq!(get_my_rentals(&store, landlord()).len(), 1);
    assert!(get_my_rentals(&store, anon()).is_empty());

    let pending = get_pending_rental_requests(&store, landlord()).unwrap();
    assert_eq!(pending.len(), 1);
    assert_eq!(
        get_pending_rental_requests(&store, tenant()).unwrap_err(),
        LifecycleError::Forbidden
    );

    assert!(get_approved_rentals(&store, tenant()).unwrap().is_empty());
    approve_rental_request(&mut store, landlord(), T0, rental.id).unwrap();
    assert_eq!(get_approved_rentals(&store, tenant()).unwrap().len(), 1);
    assert!(get_pending_rental_requests(&store, landlord()).unwrap().is_empty());
}
