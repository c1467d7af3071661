//! The rental lifecycle engine.
//!
//! An agreement is created on a tenant's request and then moved by
//! landlord and tenant actions: review, approval or rejection,
//! confirmation (which mints the receipt record), and cancellation.
//! Requesting a rental takes the property off the market; rejection and
//! cancellation put it back.

use vstd::prelude::*;

use crate::auth::{is_anonymous, Identity};
use crate::errors::LifecycleError;
use crate::nft_minter::minted_nft_matches;
use crate::property::Property;
use crate::rental::{RentalAgreement, RentalStatus};
use crate::rental_manager::mint_rental_nft;
use crate::storage::{
    has_property, has_rental, has_user, lemma_filter_empty, lemma_filter_push, property_at,
    property_idx, rental_at, rental_idx, user_at, Storage,
};
use crate::user::Role;

verus! {

/// Whether some agreement in the table still blocks this property: one
/// that names it and sits in a non-terminal state.
pub open spec fn open_rental_for(s: Seq<RentalAgreement>, property_id: u64) -> bool {
    exists|i: int|
        0 <= i < s.len() && (#[trigger] s[i]).property_id == property_id
            && !s[i].status.is_terminal()
}

/// The rejection, if any, of a tenant's rental request: the caller must be
/// an authenticated, registered tenant; the property must exist, be on the
/// market, and carry no open agreement.
pub open spec fn request_rejection(s: Storage, caller: Identity, property_id: u64) -> Option<
    LifecycleError,
> {
    if caller.is_anon() {
        Some(LifecycleError::Unauthenticated)
    } else if !has_user(s.users@, caller) {
        Some(LifecycleError::NotFound)
    } else if user_at(s.users@, caller).role != Role::Tenant {
        Some(LifecycleError::Forbidden)
    } else if !has_property(s.properties@, property_id) {
        Some(LifecycleError::NotFound)
    } else if !property_at(s.properties@, property_id).is_available {
        Some(LifecycleError::InvalidState)
    } else if open_rental_for(s.rentals@, property_id) {
        Some(LifecycleError::InvalidState)
    } else {
        None
    }
}

/// A tenant requests a property: a fresh agreement in `Requested` with the
/// listing's amounts, and the property leaves the market.
pub fn request_rental(
    store: &mut Storage,
    caller: Identity,
    now: u64,
    property_id: u64,
    start_date: u64,
    end_date: u64,
) -> (r: Result<RentalAgreement, LifecycleError>)
    requires
        old(store).wf(),
        old(store).rental_counter < u64::MAX,
    ensures
        final(store).wf(),
        ({
            let rej = request_rejection(*old(store), caller, property_id);
            match rej {
                Some(e) => r == Err::<RentalAgreement, LifecycleError>(e) && *final(store) == *old(store),
                None => ({
                    let p = property_at(old(store).properties@, property_id);
                    let rental = RentalAgreement {
                        id: (old(store).rental_counter + 1) as u64,
                        property_id,
                        landlord: p.owner,
                        tenant: caller,
                        status: RentalStatus::Requested,
                        start_date,
                        end_date,
                        rent_amount: p.rent_amount,
                        deposit_amount: p.deposit_amount,
                        nft_id: None::<u64>,
                        created_at: now,
                        updated_at: now,
                    };
                    &&& r == Ok::<RentalAgreement, LifecycleError>(rental)
                    &&& final(store).rentals@ == old(store).rentals@.push(rental)
                    &&& final(store).rental_counter == old(store).rental_counter + 1
                    &&& final(store).properties@ == old(store).properties@.update(
                        property_idx(old(store).properties@, property_id),
                        (Property { is_available: false, updated_at: now, ..p }),
                    )
                    &&& (*final(store) == (Storage {
                        rentals: final(store).rentals,
                        rental_counter: final(store).rental_counter,
                        properties: final(store).properties,
                        ..*old(store)
                    }))
                }),
            }
        }),
{
    if is_anonymous(caller) {
        return Err(LifecycleError::Unauthenticated);
    }
    let user = match store.get_user(&caller) {
        Some(u) => u,
        None => {
            return Err(LifecycleError::NotFound);
        },
    };
    if user.role != Role::Tenant {
        return Err(LifecycleError::Forbidden);
    }
    let property = match store.get_property(property_id) {
        Some(p) => p,
        None => {
            return Err(LifecycleError::NotFound);
        },
    };
    if !property.is_available {
        return Err(LifecycleError::InvalidState);
    }
    if store.property_has_open_rental(property_id) {
        return Err(LifecycleError::InvalidState);
    }
    let rental_id = store.get_next_rental_id();
    let rental = RentalAgreement::new(
        rental_id,
        property_id,
        property.owner,
        caller,
        start_date,
        end_date,
        property.rent_amount,
        property.deposit_amount,
        now,
    );
    proof {
        assert(!has_rental(store.rentals@, rental_id)) by {
            if has_rental(store.rentals@, rental_id) {
                let k = rental_idx(store.rentals@, rental_id);
                assert(0 <= k < store.rentals@.len() && store.rentals@[k].id == rental_id);
            }
        }
    }
    let created = store.create_rental(rental);
    proof {
        assert(created is Ok);
    }
    let set = store.set_property_availability(property_id, false, now);
    proof {
        assert(set is Ok);
    }
    Ok(rental)
}

/// The rejection, if any, of a confirmation: the registered caller must be
/// the agreement's landlord (who may confirm from `Requested` or
/// `Approved`) or its tenant (who may confirm only from `Approved`), and
/// the listing must still exist for the receipt record to be minted.
pub open spec fn confirm_rejection(s: Storage, caller: Identity, rental_id: u64) -> Option<
    LifecycleError,
> {
    if caller.is_anon() {
        Some(LifecycleError::Unauthenticated)
    } else if !has_rental(s.rentals@, rental_id) {
        Some(LifecycleError::NotFound)
    } else if !has_user(s.users@, caller) {
        Some(LifecycleError::NotFound)
    } else {
        let x = rental_at(s.rentals@, rental_id);
        if user_at(s.users@, caller).role == Role::Landlord {
            if x.landlord != caller {
                Some(LifecycleError::Forbidden)
            } else if x.status != RentalStatus::Requested && x.status != RentalStatus::Approved {
                Some(LifecycleError::InvalidState)
            } else if !has_property(s.properties@, x.property_id) {
                Some(LifecycleError::NotFound)
            } else {
                None
            }
        } else {
            if x.tenant != caller {
                Some(LifecycleError::Forbidden)
            } else if x.status != RentalStatus::Approved {
                Some(LifecycleError::InvalidState)
            } else if !has_property(s.properties@, x.property_id) {
                Some(LifecycleError::NotFound)
            } else {
                None
            }
        }
    }
}

/// Confirms an agreement: mints the receipt record for the tenant, stores
/// its id on the agreement, and moves it to `Confirmed`. The landlord may
/// confirm straight from `Requested` for agreements that predate the
/// approval step; the tenant only from `Approved`.
pub fn confirm_rental(store: &mut Storage, caller: Identity, now: u64, rental_id: u64) -> (r:
    Result<RentalAgreement, LifecycleError>)
    requires
        old(store).wf(),
        old(store).nft_counter < u64::MAX,
    ensures
        final(store).wf(),
        ({
            let rej = confirm_rejection(*old(store), caller, rental_id);
            match rej {
                Some(e) => r == Err::<RentalAgreement, LifecycleError>(e) && *final(store) == *old(store),
                None => ({
                    let x0 = rental_at(old(store).rentals@, rental_id);
                    let nid = (old(store).nft_counter + 1) as u64;
                    let x1 = RentalAgreement {
                        status: RentalStatus::Confirmed,
                        nft_id: Some(nid),
                        updated_at: now,
                        ..x0
                    };
                    let p = property_at(old(store).properties@, x0.property_id);
                    let image = if p.images@.len() > 0 {
                        p.images@[0]@
                    } else {
                        Seq::<char>::empty()
                    };
                    &&& r == Ok::<RentalAgreement, LifecycleError>(x1)
                    &&& final(store).rentals@ == old(store).rentals@.update(
                        rental_idx(old(store).rentals@, rental_id),
                        x1,
                    )
                    &&& final(store).nfts@ == old(store).nfts@.push(final(store).nfts@.last())
                    &&& minted_nft_matches(
                        final(store).nfts@.last(),
                        old(store).nft_counter + 1,
                        x0.tenant,
                        x0.property_id,
                        x0.id,
                        p.title@,
                        p.address@,
                        image,
                        x0.rent_amount,
                        x0.start_date,
                        x0.end_date,
                        now,
                    )
                    &&& final(store).nft_counter == old(store).nft_counter + 1
                    &&& (*final(store) == (Storage {
                        rentals: final(store).rentals,
                        nfts: final(store).nfts,
                        nft_counter: final(store).nft_counter,
                        ..*old(store)
                    }))
                }),
            }
        }),
{
    if is_anonymous(caller) {
        return Err(LifecycleError::Unauthenticated);
    }
    let mut rental = match store.get_rental(rental_id) {
        Some(x) => x,
        None => {
            return Err(LifecycleError::NotFound);
        },
    };
    let user = match store.get_user(&caller) {
        Some(u) => u,
        None => {
            return Err(LifecycleError::NotFound);
        },
    };
    match user.role {
        Role::Landlord => {
            if rental.landlord != caller {
                return Err(LifecycleError::Forbidden);
            }
            if rental.status != RentalStatus::Requested && rental.status != RentalStatus::Approved {
                return Err(LifecycleError::InvalidState);
            }
        },
        Role::Tenant => {
            if rental.tenant != caller {
                return Err(LifecycleError::Forbidden);
            }
            if rental.status != RentalStatus::Approved {
                return Err(LifecycleError::InvalidState);
            }
        },
    }
    let nft_id = match mint_rental_nft(store, &rental, now) {
        Ok(id) => id,
        Err(e) => {
            return Err(e);
        },
    };
    rental.confirm(nft_id, now);
    let upd = store.update_rental(rental);
    proof {
        assert(upd is Ok);
    }
    Ok(rental)
}

/// The caller's agreements: those where the caller is the tenant, then
/// those where the caller is the landlord. An anonymous caller sees
/// nothing.
pub fn get_my_rentals(store: &Storage, caller: Identity) -> (r: Vec<RentalAgreement>)
    ensures
        caller.is_anon() ==> r@ == Seq::<RentalAgreement>::empty(),
        !caller.is_anon() ==> r@ == store.rentals@.filter(
            |x: RentalAgreement| x.tenant == caller,
        ) + store.rentals@.filter(|x: RentalAgreement| x.landlord == caller),
{
    if is_anonymous(caller) {
        let empty: Vec<RentalAgreement> = Vec::new();
        proof {
            assert(empty@ =~= Seq::<RentalAgreement>::empty());
        }
        return empty;
    }
    let mut rentals = store.get_rentals_by_tenant(&caller);
    let mut more = store.get_rentals_by_landlord(&caller);
    rentals.append(&mut more);
    rentals
}

/// The rejection, if any, of a cancellation: either party may cancel any
/// agreement of theirs that is not `Active`.
pub open spec fn cancel_rejection(s: Storage, caller: Identity, rental_id: u64) -> Option<
    LifecycleError,
> {
    if caller.is_anon() {
        Some(LifecycleError::Unauthenticated)
    } else if !has_rental(s.rentals@, rental_id) {
        Some(LifecycleError::NotFound)
    } else if rental_at(s.rentals@, rental_id).landlord != caller && rental_at(
        s.rentals@,
        rental_id,
    ).tenant != caller {
        Some(LifecycleError::Forbidden)
    } else if rental_at(s.rentals@, rental_id).status == RentalStatus::Active {
        Some(LifecycleError::InvalidState)
    } else {
        None
    }
}

/// Cancels an agreement and puts its property back on the market (when the
/// listing still exists).
pub fn cancel_rental(store: &mut Storage, caller: Identity, now: u64, rental_id: u64) -> (r: Result<
    RentalAgreement,
    LifecycleError,
>)
    requires
        old(store).wf(),
    ensures
        final(store).wf(),
        ({
            let rej = cancel_rejection(*old(store), caller, rental_id);
            match rej {
                Some(e) => r == Err::<RentalAgreement, LifecycleError>(e) && *final(store) == *old(store),
                None => ({
                    let x0 = rental_at(old(store).rentals@, rental_id);
                    let x1 = RentalAgreement {
                        status: RentalStatus::Cancelled,
                        updated_at: now,
                        ..x0
                    };
                    &&& r == Ok::<RentalAgreement, LifecycleError>(x1)
                    &&& final(store).rentals@ == old(store).rentals@.update(
                        rental_idx(old(store).rentals@, rental_id),
                        x1,
                    )
                    &&& (if has_property(old(store).properties@, x0.property_id) {
                        final(store).properties@ == old(store).properties@.update(
                            property_idx(old(store).properties@, x0.property_id),
                            (Property {
                                is_available: true,
                                updated_at: now,
                                ..property_at(old(store).properties@, x0.property_id)
                            }),
                        )
                    } else {
                        final(store).properties@ == old(store).properties@
                    })
                    &&& (*final(store) == (Storage {
                        rentals: final(store).rentals,
                        properties: final(store).properties,
                        ..*old(store)
                    }))
                }),
            }
        }),
{
    if is_anonymous(caller) {
        return Err(LifecycleError::Unauthenticated);
    }
    let mut rental = match store.get_rental(rental_id) {
        Some(x) => x,
        None => {
            return Err(LifecycleError::NotFound);
        },
    };
    if rental.landlord != caller && rental.tenant != caller {
        return Err(LifecycleError::Forbidden);
    }
    if rental.status == RentalStatus::Active {
        return Err(LifecycleError::InvalidState);
    }
    rental.cancel(now);
    let upd = store.update_rental(rental);
    proof {
        assert(upd is Ok);
    }
    let _ = store.set_property_availability(rental.property_id, true, now);
    Ok(rental)
}

/// One agreement by id, visible only to its landlord or tenant.
pub fn get_rental_by_id(store: &Storage, caller: Identity, rental_id: u64) -> (r: Result<
    RentalAgreement,
    LifecycleError,
>)
    requires
        store.wf(),
    ensures
        caller.is_anon() ==> r == Err::<RentalAgreement, LifecycleError>(
            LifecycleError::Unauthenticated,
        ),
        !caller.is_anon() && !has_rental(store.rentals@, rental_id) ==> r == Err::<
            RentalAgreement,
            LifecycleError,
        >(LifecycleError::NotFound),
        !caller.is_anon() && has_rental(store.rentals@, rental_id) ==> ({
            let x = rental_at(store.rentals@, rental_id);
            if x.landlord != caller && x.tenant != caller {
                r == Err::<RentalAgreement, LifecycleError>(LifecycleError::Forbidden)
            } else {
                r == Ok::<RentalAgreement, LifecycleError>(x)
            }
        }),
{
    if is_anonymous(caller) {
        return Err(LifecycleError::Unauthenticated);
    }
    let rental = match store.get_rental(rental_id) {
        Some(x) => x,
        None => {
            return Err(LifecycleError::NotFound);
        },
    };
    if rental.landlord != caller && rental.tenant != caller {
        return Err(LifecycleError::Forbidden);
    }
    Ok(rental)
}

/// The requests waiting on a landlord: agreements of theirs still in
/// `Requested`.
#[verifier::loop_isolation(false)]
pub fn get_pending_rental_requests(store: &Storage, caller: Identity) -> (r: Result<
    Vec<RentalAgreement>,
    LifecycleError,
>)
    requires
        store.wf(),
    ensures
        caller.is_anon() ==> r == Err::<Vec<RentalAgreement>, LifecycleError>(
            LifecycleError::Unauthenticated,
        ),
        !caller.is_anon() && !has_user(store.users@, caller) ==> r == Err::<
            Vec<RentalAgreement>,
            LifecycleError,
        >(LifecycleError::NotFound),
        !caller.is_anon() && has_user(store.users@, caller) && user_at(store.users@, caller).role
            != Role::Landlord ==> r == Err::<Vec<RentalAgreement>, LifecycleError>(
            LifecycleError::Forbidden,
        ),
        !caller.is_anon() && has_user(store.users@, caller) && user_at(store.users@, caller).role
            == Role::Landlord ==> (r matches Ok(v) && v@ == store.rentals@.filter(
            |x: RentalAgreement| x.landlord == caller && x.status == RentalStatus::Requested,
        )),
{
    if is_anonymous(caller) {
        return Err(LifecycleError::Unauthenticated);
    }
    let user = match store.get_user(&caller) {
        Some(u) => u,
        None => {
            return Err(LifecycleError::NotFound);
        },
    };
    if user.role != Role::Landlord {
        return Err(LifecycleError::Forbidden);
    }
    let ghost pred = |x: RentalAgreement| x.landlord == caller && x.status
        == RentalStatus::Requested;
    let mut r: Vec<RentalAgreement> = Vec::new();
    let mut i: usize = 0;
    proof {
        assert(store.rentals@.subrange(0, 0) =~= Seq::<RentalAgreement>::empty());
        lemma_filter_empty(pred);
    }
    while i < store.rentals.len()
        invariant
            i <= store.rentals.len(),
            r@ == store.rentals@.subrange(0, i as int).filter(pred),
        decreases store.rentals.len() - i,
    {
        proof {
            assert(store.rentals@.subrange(0, i as int + 1) =~= store.rentals@.subrange(
                0,
                i as int,
            ).push(store.rentals@[i as int]));
            lemma_filter_push(store.rentals@.subrange(0, i as int), store.rentals@[i as int], pred);
        }
        if store.rentals[i].landlord == caller && store.rentals[i].status
            == RentalStatus::Requested {
            r.push(store.rentals[i]);
        }
        i += 1;
    }
    proof {
        assert(store.rentals@.subrange(0, store.rentals@.len() as int) =~= store.rentals@);
    }
    Ok(r)
}

/// The approved agreements a tenant can now confirm.
#[verifier::loop_isolation(false)]
pub fn get_approved_rentals(store: &Storage, caller: Identity) -> (r: Result<
    Vec<RentalAgreement>,
    LifecycleError,
>)
    requires
        store.wf(),
    ensures
        caller.is_anon() ==> r == Err::<Vec<RentalAgreement>, LifecycleError>(
            LifecycleError::Unauthenticated,
        ),
        !caller.is_anon() && !has_user(store.users@, caller) ==> r == Err::<
            Vec<RentalAgreement>,
            LifecycleError,
        >(LifecycleError::NotFound),
        !caller.is_anon() && has_user(store.users@, caller) && user_at(store.users@, caller).role
            != Role::Tenant ==> r == Err::<Vec<RentalAgreement>, LifecycleError>(
            LifecycleError::Forbidden,
        ),
        !caller.is_anon() && has_user(store.users@, caller) && user_at(store.users@, caller).role
            == Role::Tenant ==> (r matches Ok(v) && v@ == store.rentals@.filter(
            |x: RentalAgreement| x.tenant == caller && x.status == RentalStatus::Approved,
        )),
{
    if is_anonymous(caller) {
        return Err(LifecycleError::Unauthenticated);
    }
    let user = match store.get_user(&caller) {
        Some(u) => u,
        None => {
            return Err(LifecycleError::NotFound);
        },
    };
    if user.role != Role::Tenant {
        return Err(LifecycleError::Forbidden);
    }
    let ghost pred = |x: RentalAgreement| x.tenant == caller && x.status == RentalStatus::Approved;
    let mut r: Vec<RentalAgreement> = Vec::new();
    let mut i: usize = 0;
    proof {
        assert(store.rentals@.subrange(0, 0) =~= Seq::<RentalAgreement>::empty());
        lemma_filter_empty(pred);
    }
    while i < store.rentals.len()
        invariant
            i <= store.rentals.len(),
            r@ == store.rentals@.subrange(0, i as int).filter(pred),
        decreases store.rentals.len() - i,
    {
        proof {
            assert(store.rentals@.subrange(0, i as int + 1) =~= store.rentals@.subrange(
                0,
                i as int,
            ).push(store.rentals@[i as int]));
            lemma_filter_push(store.rentals@.subrange(0, i as int), store.rentals@[i as int], pred);
        }
        if store.rentals[i].tenant == caller && store.rentals[i].status == RentalStatus::Approved {
            r.push(store.rentals[i]);
        }
        i += 1;
    }
    proof {
        assert(store.rentals@.subrange(0, store.rentals@.len() as int) =~= store.rentals@);
    }
    Ok(r)
}

/// The rejection, if any, of a landlord decision (approval or rejection)
/// on a request: the caller must be the agreement's landlord and the
/// agreement must still be in `Requested` or `UnderReview`.
pub open spec fn decision_rejection(s: Storage, caller: Identity, rental_id: u64) -> Option<
    LifecycleError,
> {
    if caller.is_anon() {
        Some(LifecycleError::Unauthenticated)
    } else if !has_rental(s.rentals@, rental_id) {
        Some(LifecycleError::NotFound)
    } else if rental_at(s.rentals@, rental_id).landlord != caller {
        Some(LifecycleError::Forbidden)
    } else if rental_at(s.rentals@, rental_id).status != RentalStatus::Requested && rental_at(
        s.rentals@,
        rental_id,
    ).status != RentalStatus::UnderReview {
        Some(LifecycleError::InvalidState)
    } else {
        None
    }
}

/// The landlord approves a request: `Requested` or `UnderReview` to
/// `Approved`.
pub fn approve_rental_request(store: &mut Storage, caller: Identity, now: u64, rental_id: u64) -> (r:
    Result<RentalAgreement, LifecycleError>)
    requires
        old(store).wf(),
    ensures
        final(store).wf(),
        ({
            let rej = decision_rejection(*old(store), caller, rental_id);
            match rej {
                Some(e) => r == Err::<RentalAgreement, LifecycleError>(e) && *final(store) == *old(store),
                None => ({
                    let x0 = rental_at(old(store).rentals@, rental_id);
                    let x1 = RentalAgreement {
                        status: RentalStatus::Approved,
                        updated_at: now,
                        ..x0
                    };
                    &&& r == Ok::<RentalAgreement, LifecycleError>(x1)
                    &&& final(store).rentals@ == old(store).rentals@.update(
                        rental_idx(old(store).rentals@, rental_id),
                        x1,
                    )
                    &&& (*final(store) == (Storage { rentals: final(store).rentals, ..*old(store) }))
                }),
            }
        }),
{
    if is_anonymous(caller) {
        return Err(LifecycleError::Unauthenticated);
    }
    let mut rental = match store.get_rental(rental_id) {
        Some(x) => x,
        None => {
            return Err(LifecycleError::NotFound);
        },
    };
    if rental.landlord != caller {
        return Err(LifecycleError::Forbidden);
    }
    if rental.status != RentalStatus::Requested && rental.status != RentalStatus::UnderReview {
        return Err(LifecycleError::InvalidState);
    }
    rental.approve(now);
    let upd = store.update_rental(rental);
    proof {
        assert(upd is Ok);
    }
    Ok(rental)
}

/// The landlord rejects a request: the agreement ends in `Cancelled` and
/// the property returns to the market (when the listing still exists).
pub fn reject_rental_request(store: &mut Storage, caller: Identity, now: u64, rental_id: u64) -> (r:
    Result<RentalAgreement, LifecycleError>)
    requires
        old(store).wf(),
    ensures
        final(store).wf(),
        ({
            let rej = decision_rejection(*old(store), caller, rental_id);
            match rej {
                Some(e) => r == Err::<RentalAgreement, LifecycleError>(e) && *final(store) == *old(store),
                None => ({
                    let x0 = rental_at(old(store).rentals@, rental_id);
                    let x1 = RentalAgreement {
                        status: RentalStatus::Cancelled,
                        updated_at: now,
                        ..x0
                    };
                    &&& r == Ok::<RentalAgreement, LifecycleError>(x1)
                    &&& final(store).rentals@ == old(store).rentals@.update(
                        rental_idx(old(store).rentals@, rental_id),
                        x1,
                    )
                    &&& (if has_property(old(store).properties@, x0.property_id) {
                        final(store).properties@ == old(store).properties@.update(
                            property_idx(old(store).properties@, x0.property_id),
                            (Property {
                                is_available: true,
                                updated_at: now,
                                ..property_at(old(store).properties@, x0.property_id)
                            }),
                        )
                    } else {
                        final(store).properties@ == old(store).properties@
                    })
                    &&& (*final(store) == (Storage {
                        rentals: final(store).rentals,
                        properties: final(store).properties,
                        ..*old(store)
                    }))
                }),
            }
        }),
{
    if is_anonymous(caller) {
        return Err(LifecycleError::Unauthenticated);
    }
    let mut rental = match store.get_rental(rental_id) {
        Some(x) => x,
        None => {
            return Err(LifecycleError::NotFound);
        },
    };
    if rental.landlord != caller {
        return Err(LifecycleError::Forbidden);
    }
    if rental.status != RentalStatus::Requested && rental.status != RentalStatus::UnderReview {
        return Err(LifecycleError::InvalidState);
    }
    rental.cancel(now);
    let upd = store.update_rental(rental);
    proof {
        assert(upd is Ok);
    }
    let _ = store.set_property_availability(rental.property_id, true, now);
    Ok(rental)
}

/// The rejection, if any, of marking a request under review: landlord
/// only, from `Requested` alone.
pub open spec fn review_rejection(s: Storage, caller: Identity, rental_id: u64) -> Option<
    LifecycleError,
> {
    if caller.is_anon() {
        Some(LifecycleError::Unauthenticated)
    } else if !has_rental(s.rentals@, rental_id) {
        Some(LifecycleError::NotFound)
    } else if rental_at(s.rentals@, rental_id).landlord != caller {
        Some(LifecycleError::Forbidden)
    } else if rental_at(s.rentals@, rental_id).status != RentalStatus::Requested {
        Some(LifecycleError::InvalidState)
    } else {
        None
    }
}

/// The landlord takes a fresh request under review: `Requested` to
/// `UnderReview`.
pub fn mark_rental_under_review(store: &mut Storage, caller: Identity, now: u64, rental_id: u64) -> (
    r: Result<RentalAgreement, LifecycleError>)
    requires
        old(store).wf(),
    ensures
        final(store).wf(),
        ({
            let rej = review_rejection(*old(store), caller, rental_id);
            match rej {
                Some(e) => r == Err::<RentalAgreement, LifecycleError>(e) && *final(store) == *old(store),
                None => ({
                    let x0 = rental_at(old(store).rentals@, rental_id);
                    let x1 = RentalAgreement {
                        status: RentalStatus::UnderReview,
                        updated_at: now,
                        ..x0
                    };
                    &&& r == Ok::<RentalAgreement, LifecycleError>(x1)
                    &&& final(store).rentals@ == old(store).rentals@.update(
                        rental_idx(old(store).rentals@, rental_id),
                        x1,
                    )
                    &&& (*final(store) == (Storage { rentals: final(store).rentals, ..*old(store) }))
                }),
            }
        }),
{
    if is_anonymous(caller) {
        return Err(LifecycleError::Unauthenticated);
    }
    let mut rental = match store.get_rental(rental_id) {
        Some(x) => x,
        None => {
            return Err(LifecycleError::NotFound);
        },
    };
    if rental.landlord != caller {
        return Err(LifecycleError::Forbidden);
    }
    if rental.status != RentalStatus::Requested {
        return Err(LifecycleError::InvalidState);
    }
    rental.mark_under_review(now);
    let upd = store.update_rental(rental);
    proof {
        assert(upd is Ok);
    }
    Ok(rental)
}

} // verus!
