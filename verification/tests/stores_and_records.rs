//! The record stores and the plain records around the lifecycle engine:
//! users and profiles, listings, images, id allocation, and the identity
//! gate.

use aangan_backend::auth::{is_anonymous, require_authenticated, Identity};
use aangan_backend::errors::LifecycleError;
use aangan_backend::escrow::EscrowStatus;
use aangan_backend::image::PropertyImage;
use aangan_backend::property::PropertyType;
use aangan_backend::property_api::{
    add_property, delete_property, get_available_properties, get_my_properties,
    get_properties_by_landlord, get_property_by_id, update_property, update_property_availability,
};
use aangan_backend::storage::init_storage;
use aangan_backend::user::Role;
use aangan_backend::user_api::{
    create_user, get_all_users, get_my_profile, get_user, update_user_profile,
};

const T0: u64 = 1_700_000_000_000_000_000;

fn landlord() -> Identity {
    Identity { raw: 11 }
}

fn tenant() -> Identity {
    Identity { raw: 22 }
}

fn anon() -> Identity {
    Identity { raw: 0 }
}

#[test]
fn the_identity_gate_rejects_only_the_anonymous_identity() {
    assert!(is_anonymous(Identity::anonymous()));
    assert!(is_anonymous(anon()));
    assert!(!is_anonymous(landlord()));
    assert_eq!(require_authenticated(landlord()), Ok(landlord()));
    assert_eq!(require_authenticated(anon()), Err(LifecycleError::Unauthenticated));
}

#[test]
fn error_labels_are_stable() {
    assert_eq!(LifecycleError::Unauthenticated.label(), "unauthenticated");
    assert_eq!(LifecycleError::NotFound.label(), "not found");
    assert_eq!(LifecycleError::Forbidden.label(), "forbidden");
    assert_eq!(LifecycleError::InvalidState.label(), "invalid state");
    assert_eq!(LifecycleError::DeadlineNotReached.label(), "deadline not reached");
}

#[test]
fn id_allocators_count_up_from_one_per_kind() {
    let mut store = init_storage();
    assert_eq!(store.get_next_property_id(), 1);
    assert_eq!(store.get_next_property_id(), 2);
    assert_eq!(store.get_next_rental_id(), 1);
    assert_eq!(store.get_next_nft_id(), 1);
    assert_eq!(store.get_next_escrow_id(), 1);
    assert_eq!(store.get_next_escrow_event_id(), 1);
    assert_eq!(store.get_next_escrow_event_id(), 2);
}

#[test]
fn a_principal_registers_exactly_once() {
    let mut store = init_storage();
    let user = create_user(&mut store, tenant(), T0, Role::Tenant, None, None, None).unwrap();
    assert_eq!(user.user_principal, tenant());
    assert_eq!(user.role, Role::Tenant);
    assert_eq!(user.created_at, T0);
    assert_eq!(
        create_user(&mut store, tenant(), T0, Role::Landlord, None, None, None).unwrap_err(),
        LifecycleError::InvalidState
    );
    assert_eq!(
        create_user(&mut store, anon(), T0, Role::Tenant, None, None, None).unwrap_err(),
        LifecycleError::Unauthenticated
    );
    assert_eq!(get_all_users(&store).len(), 1);
}

#[test]
fn profile_updates_keep_omitted_fields() {
    let mut store = init_storage();
    create_user(
        &mut store,
        tenant(),
        T0,
        Role::Tenant,
        Some("Ada".to_string()),
        Some("a@x".to_string()),
        None,
    )
    .unwrap();
    let updated = update_user_profile(
        &mut store,
        tenant(),
        T0 + 5,
        None,
        None,
        Some("555".to_string()),
    )
    .unwrap();
    assert_eq!(updated.name.as_deref(), Some("Ada"));
    assert_eq!(updated.email.as_deref(), Some("a@x"));
    assert_eq!(updated.phone.as_deref(), Some("555"));
    assert_eq!(updated.updated_at, T0 + 5);
    assert_eq!(get_my_profile(&store, tenant()).unwrap().phone.as_deref(), Some("555"));
    assert_eq!(
        update_user_profile(&mut store, landlord(), T0, None, None, None).unwrap_err(),
        LifecycleError::NotFound
    );
}

#[test]
fn user_lookup_defaults_to_the_caller() {
    let mut store = init_storage();
    create_user(&mut store, tenant(), T0, Role::Tenant, None, None, None).unwrap();
    assert_eq!(get_user(&store, tenant(), None).unwrap().user_principal, tenant());
    assert_eq!(get_user(&store, anon(), None).unwrap_err(), LifecycleError::Unauthenticated);
    assert_eq!(get_user(&store, anon(), Some(tenant())).unwrap().user_principal, tenant());
    assert_eq!(get_user(&store, tenant(), Some(landlord())).unwrap_err(), LifecycleError::NotFound);
}

fn listed_store() -> (aangan_backend::storage::Storage, u64) {
    let mut store = init_storage();
    create_user(&mut store, landlord(), T0, Role::Landlord, None, None, None).unwrap();
    create_user(&mut store, tenant(), T0, Role::Tenant, None, None, None).unwrap();
    let p = add_property(
        &mut store,
        landlord(),
        T0,
        "Loft".to_string(),
        "Sunny".to_string(),
        "1 Elm".to_string(),
        900,
        450,
        PropertyType::Studio,
        1,
        1,
        300,
        vec![],
        vec![],
    )
    .unwrap();
    (store, p.id)
}

#[test]
fn listings_are_owner_gated_and_browseable() {
    let (mut store, pid) = listed_store();
    assert_eq!(
        add_property(
            &mut store,
            tenant(),
            T0,
            "No".to_string(),
            "No".to_string(),
            "No".to_string(),
            1,
            1,
            PropertyType::House,
            1,
            1,
            1,
            vec![],
            vec![],
        )
        .unwrap_err(),
        LifecycleError::Forbidden
    );

    let p = get_property_by_id(&store, pid).unwrap();
    assert!(p.is_available);
    assert_eq!(p.rent_amount, 900);
    assert_eq!(get_available_properties(&store).len(), 1);
    assert_eq!(get_my_properties(&store, landlord()).unwrap().len(), 1);
    assert!(get_my_properties(&store, tenant()).unwrap().is_empty());
    assert_eq!(get_properties_by_landlord(&store, anon(), Some(landlord())).unwrap().len(), 1);
    assert_eq!(
        get_properties_by_landlord(&store, anon(), None).unwrap_err(),
        LifecycleError::Unauthenticated
    );

    let p = update_property_availability(&mut store, landlord(), T0 + 1, pid, false).unwrap();
    assert!(!p.is_available);
    assert!(get_available_properties(&store).is_empty());
    assert_eq!(
        update_property_availability(&mut store, tenant(), T0, pid, true).unwrap_err(),
        LifecycleError::Forbidden
    );
}

#[test]
fn editing_a_listing_replaces_fields_but_keeps_identity() {
    let (mut store, pid) = listed_store();
    let p = update_property(
        &mut store,
        landlord(),
        T0 + 9,
        pid,
        "Loft B".to_string(),
        "Brighter".to_string(),
        "2 Elm".to_string(),
        950,
        475,
        PropertyType::Condo,
        2,
        2,
        310,
        vec!["pic".to_string()],
        vec!["lift".to_string()],
    )
    .unwrap();
    assert_eq!(p.id, pid);
    assert_eq!(p.owner, landlord());
    assert_eq!(p.title, "Loft B");
    assert_eq!(p.rent_amount, 950);
    assert_eq!(p.created_at, T0);
    assert_eq!(p.updated_at, T0 + 9);
    assert!(p.is_available);
    assert_eq!(
        update_property(
            &mut store,
            tenant(),
            T0,
            pid,
            "X".to_string(),
            "X".to_string(),
            "X".to_string(),
            1,
            1,
            PropertyType::House,
            1,
            1,
            1,
            vec![],
            vec![],
        )
        .unwrap_err(),
        LifecycleError::Forbidden
    );
}

#[test]
fn deleting_a_listing_removes_it() {
    let (mut store, pid) = listed_store();
    assert_eq!(
        delete_property(&mut store, tenant(), pid).unwrap_err(),
        LifecycleError::Forbidden
    );
    let msg = delete_property(&mut store, landlord(), pid).unwrap();
    assert_eq!(msg, "Property deleted successfully");
    assert_eq!(get_property_by_id(&store, pid).unwrap_err(), LifecycleError::NotFound);
    assert_eq!(delete_property(&mut store, landlord(), pid).unwrap_err(), LifecycleError::NotFound);
}

#[test]
fn images_are_keyed_by_their_string_id() {
    let mut store = init_storage();
    let img_a = PropertyImage::new(
        "img-a".to_string(),
        7,
        landlord(),
        "AAAA".to_string(),
        "image/jpeg".to_string(),
        4,
        T0,
    );
    let img_b = PropertyImage::new(
        "img-b".to_string(),
        7,
        landlord(),
        "BBBB".to_string(),
        "image/png".to_string(),
        4,
        T0,
    );
    assert_eq!(store.store_image(img_a).unwrap(), "img-a");
    assert_eq!(store.store_image(img_b).unwrap(), "img-b");

    // lookup picks the record with the matching id, not just any record
    assert_eq!(store.get_image("img-b").unwrap().data, "BBBB");
    assert_eq!(store.get_image("img-a").unwrap().data, "AAAA");
    assert!(store.get_image("img-c").is_none());

    // storing under an existing id replaces the payload
    let img_a2 = PropertyImage::new(
        "img-a".to_string(),
        8,
        landlord(),
        "A2A2".to_string(),
        "image/jpeg".to_string(),
        4,
        T0 + 1,
    );
    store.store_image(img_a2).unwrap();
    assert_eq!(store.get_image("img-a").unwrap().data, "A2A2");
    assert_eq!(store.get_images_by_property(7).len(), 1);
    assert_eq!(store.get_images_by_property(8).len(), 1);
    assert_eq!(store.get_images_by_owner(&landlord()).len(), 2);

    assert!(store.delete_image("img-b").is_ok());
    assert_eq!(store.delete_image("img-b").unwrap_err(), LifecycleError::NotFound);
    assert!(store.get_image("img-b").is_none());

    store.delete_images_by_property(8);
    assert!(store.get_image("img-a").is_none());
}

#[test]
fn rental_lookup_by_property_finds_the_earliest_record() {
    let mut store = init_storage();
    create_user(&mut store, landlord(), T0, Role::Landlord, None, None, None).unwrap();
    create_user(&mut store, tenant(), T0, Role::Tenant, None, None, None).unwrap();
    let p = add_property(
        &mut store,
        landlord(),
        T0,
        "Hut".to_string(),
        "Small".to_string(),
        "9 Oak".to_string(),
        100,
        50,
        PropertyType::House,
        1,
        1,
        120,
        vec![],
        vec![],
    )
    .unwrap();
    assert!(store.get_rental_by_property(p.id).is_none());
    assert!(!store.user_exists(&Identity { raw: 99 }));
    assert!(store.user_exists(&tenant()));
    let first = aangan_backend::rental_api::request_rental(&mut store, tenant(), T0, p.id, 1, 2)
        .unwrap();
    aangan_backend::rental_api::cancel_rental(&mut store, tenant(), T0, first.id).unwrap();
    aangan_backend::rental_api::request_rental(&mut store, tenant(), T0, p.id, 3, 4).unwrap();
    // the first record on file wins, even though a later one exists
    assert_eq!(store.get_rental_by_property(p.id).unwrap().id, first.id);
}

#[test]
fn overdue_accounts_are_the_pending_ones_past_their_deadline() {
    let mut store = init_storage();
    let request = aangan_backend::escrow_api::CreateEscrowRequest {
        rental_id: 1,
        property_id: 1,
        landlord: landlord(),
        tenant: tenant(),
        amount: 500,
    };
    let account =
        aangan_backend::escrow_api::create_escrow_account(&mut store, tenant(), T0, request)
            .unwrap();
    assert!(!account.is_overdue(T0));
    assert!(!account.is_overdue(account.submission_deadline));
    assert!(account.is_overdue(account.submission_deadline + 1));
    assert!(store.get_overdue_escrow_accounts(T0).is_empty());
    assert_eq!(store.get_overdue_escrow_accounts(account.submission_deadline + 1).len(), 1);
    assert_eq!(
        store.get_escrow_accounts_by_status(EscrowStatus::PendingSubmission).len(),
        1
    );
    assert_eq!(store.get_escrow_accounts_by_rental(1).len(), 1);
    assert_eq!(store.get_escrow_accounts_by_property(1).len(), 1);
    assert_eq!(store.get_total_escrow_amount_by_user(&tenant(), Role::Tenant), 500);
    assert_eq!(store.get_total_escrow_amount_by_user(&landlord(), Role::Landlord), 500);
    assert_eq!(store.get_total_escrow_amount_by_user(&tenant(), Role::Landlord), 0);
}
