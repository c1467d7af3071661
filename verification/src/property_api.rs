//! Listing management: plain keyed records with ownership gating.

use vstd::prelude::*;

use crate::auth::{is_anonymous, Identity};
use crate::errors::LifecycleError;
use crate::property::{prop_like, Property, PropertyType};
use crate::storage::{
    has_property, has_user, property_at, property_idx, props_like, user_at, Storage,
};
use crate::user::Role;

verus! {

/// Registers a new listing for an authenticated landlord; it enters the
/// market available.
pub fn add_property(
    store: &mut Storage,
    caller: Identity,
    now: u64,
    title: String,
    description: String,
    address: String,
    rent_amount: u64,
    deposit_amount: u64,
    property_type: PropertyType,
    bedrooms: u32,
    bathrooms: u32,
    area_sqft: u32,
    images: Vec<String>,
    amenities: Vec<String>,
) -> (r: Result<Property, LifecycleError>)
    requires
        old(store).wf(),
        old(store).property_counter < u64::MAX,
    ensures
        final(store).wf(),
        caller.is_anon() ==> r == Err::<Property, LifecycleError>(LifecycleError::Unauthenticated)
            && *final(store) == *old(store),
        !caller.is_anon() && !has_user(old(store).users@, caller) ==> r == Err::<
            Property,
            LifecycleError,
        >(LifecycleError::NotFound) && *final(store) == *old(store),
        !caller.is_anon() && has_user(old(store).users@, caller) && user_at(
            old(store).users@,
            caller,
        ).role != Role::Landlord ==> r == Err::<Property, LifecycleError>(LifecycleError::Forbidden)
            && *final(store) == *old(store),
        !caller.is_anon() && has_user(old(store).users@, caller) && user_at(
            old(store).users@,
            caller,
        ).role == Role::Landlord ==> ({
            let p1 = Property {
                id: (old(store).property_counter + 1) as u64,
                owner: caller,
                title,
                description,
                address,
                rent_amount,
                deposit_amount,
                property_type,
                bedrooms,
                bathrooms,
                area_sqft,
                images,
                amenities,
                is_available: true,
                created_at: now,
                updated_at: now,
            };
            &&& final(store).properties@ == old(store).properties@.push(p1)
            &&& final(store).property_counter == old(store).property_counter + 1
            &&& (r matches Ok(rp) && prop_like(p1, rp))
            &&& (*final(store) == (Storage {
                properties: final(store).properties,
                property_counter: final(store).property_counter,
                ..*old(store)
            }))
        }),
{
    if is_anonymous(caller) {
        return Err(LifecycleError::Unauthenticated);
    }
    let user = match store.get_user(&caller) {
        Some(u) => u,
        None => {
            return Err(LifecycleError::NotFound);
        },
    };
    if user.role != Role::Landlord {
        return Err(LifecycleError::Forbidden);
    }
    let property_id = store.get_next_property_id();
    let property = Property::new(
        property_id,
        caller,
        title,
        description,
        address,
        rent_amount,
        deposit_amount,
        property_type,
        bedrooms,
        bathrooms,
        area_sqft,
        images,
        amenities,
        now,
    );
    let out = property.clone();
    proof {
        assert(!has_property(store.properties@, property_id)) by {
            if has_property(store.properties@, property_id) {
                let k = property_idx(store.properties@, property_id);
                assert(0 <= k < store.properties@.len() && store.properties@[k].id == property_id);
            }
        }
    }
    let created = store.create_property(property);
    proof {
        assert(created is Ok);
    }
    Ok(out)
}

/// Every listing, for browsing.
pub fn get_all_properties(store: &Storage) -> (r: Vec<Property>)
    ensures
        props_like(store.properties@, r@),
{
    store.get_all_properties()
}

/// The listings currently on the market.
pub fn get_available_properties(store: &Storage) -> (r: Vec<Property>)
    ensures
        props_like(store.properties@.filter(|p: Property| p.is_available), r@),
{
    store.get_available_properties()
}

/// One listing by id.
pub fn get_property_by_id(store: &Storage, id: u64) -> (r: Result<Property, LifecycleError>)
    requires
        store.wf(),
    ensures
        !has_property(store.properties@, id) ==> r == Err::<Property, LifecycleError>(
            LifecycleError::NotFound,
        ),
        has_property(store.properties@, id) ==> (r matches Ok(p) && prop_like(
            property_at(store.properties@, id),
            p,
        )),
{
    match store.get_property(id) {
        Some(p) => Ok(p),
        None => Err(LifecycleError::NotFound),
    }
}

/// The listings of the given landlord, or of the caller when no landlord
/// is named.
pub fn get_properties_by_landlord(store: &Storage, caller: Identity, landlord: Option<Identity>) -> (
    r: Result<Vec<Property>, LifecycleError>)
    ensures
        landlord is None && caller.is_anon() ==> r == Err::<Vec<Property>, LifecycleError>(
            LifecycleError::Unauthenticated,
        ),
        !(landlord is None && caller.is_anon()) ==> ({
            let target = if landlord is Some {
                landlord.unwrap()
            } else {
                caller
            };
            r matches Ok(v) && props_like(
                store.properties@.filter(|p: Property| p.owner == target),
                v@,
            )
        }),
{
    let target = match landlord {
        Some(p) => p,
        None => {
            if is_anonymous(caller) {
                return Err(LifecycleError::Unauthenticated);
            }
            caller
        },
    };
    Ok(store.get_properties_by_owner(&target))
}

/// The caller's own listings.
pub fn get_my_properties(store: &Storage, caller: Identity) -> (r: Result<
    Vec<Property>,
    LifecycleError,
>)
    ensures
        caller.is_anon() ==> r == Err::<Vec<Property>, LifecycleError>(
            LifecycleError::Unauthenticated,
        ),
        !caller.is_anon() ==> (r matches Ok(v) && props_like(
            store.properties@.filter(|p: Property| p.owner == caller),
            v@,
        )),
{
    if is_anonymous(caller) {
        return Err(LifecycleError::Unauthenticated);
    }
    Ok(store.get_properties_by_owner(&caller))
}

/// The rejection, if any, of a listing operation that only the owner may
/// perform.
pub open spec fn owner_rejection(s: Storage, caller: Identity, property_id: u64) -> Option<
    LifecycleError,
> {
    if caller.is_anon() {
        Some(LifecycleError::Unauthenticated)
    } else if !has_property(s.properties@, property_id) {
        Some(LifecycleError::NotFound)
    } else if property_at(s.properties@, property_id).owner != caller {
        Some(LifecycleError::Forbidden)
    } else {
        None
    }
}

/// The owner flips a listing's availability by hand.
pub fn update_property_availability(
    store: &mut Storage,
    caller: Identity,
    now: u64,
    property_id: u64,
    available: bool,
) -> (r: Result<Property, LifecycleError>)
    requires
        old(store).wf(),
    ensures
        final(store).wf(),
        ({
            let rej = owner_rejection(*old(store), caller, property_id);
            match rej {
                Some(e) => r == Err::<Property, LifecycleError>(e) && *final(store) == *old(store),
                None => ({
                    let t = Property {
                        is_available: available,
                        updated_at: now,
                        ..property_at(old(store).properties@, property_id)
                    };
                    &&& final(store).properties@ == old(store).properties@.update(
                        property_idx(old(store).properties@, property_id),
                        t,
                    )
                    &&& (r matches Ok(rp) && prop_like(t, rp))
                    &&& (*final(store) == (Storage {
                        properties: final(store).properties,
                        ..*old(store)
                    }))
                }),
            }
        }),
{
    if is_anonymous(caller) {
        return Err(LifecycleError::Unauthenticated);
    }
    let mut property = match store.get_property(property_id) {
        Some(p) => p,
        None => {
            return Err(LifecycleError::NotFound);
        },
    };
    if property.owner != caller {
        return Err(LifecycleError::Forbidden);
    }
    let set = store.set_property_availability(property_id, available, now);
    proof {
        assert(set is Ok);
    }
    property.update_availability(available, now);
    Ok(property)
}

/// The owner, still a landlord, replaces every editable field of a
/// listing; identity, availability and creation time stay.
pub fn update_property(
    store: &mut Storage,
    caller: Identity,
    now: u64,
    property_id: u64,
    title: String,
    description: String,
    address: String,
    rent_amount: u64,
    deposit_amount: u64,
    property_type: PropertyType,
    bedrooms: u32,
    bathrooms: u32,
    area_sqft: u32,
    images: Vec<String>,
    amenities: Vec<String>,
) -> (r: Result<Property, LifecycleError>)
    requires
        old(store).wf(),
    ensures
        final(store).wf(),
        ({
            let rej = owner_rejection(*old(store), caller, property_id);
            match rej {
                Some(e) => r == Err::<Property, LifecycleError>(e) && *final(store) == *old(store),
                None => ({
                    let p0 = property_at(old(store).properties@, property_id);
                    if !has_user(old(store).users@, caller) {
                        r == Err::<Property, LifecycleError>(LifecycleError::NotFound) && *final(store) == *old(store)
                    } else if user_at(old(store).users@, caller).role != Role::Landlord {
                        r == Err::<Property, LifecycleError>(LifecycleError::Forbidden) && *final(store) == *old(store)
                    } else {
                        let p1 = Property {
                            id: property_id,
                            owner: p0.owner,
                            title,
                            description,
                            address,
                            rent_amount,
                            deposit_amount,
                            property_type,
                            bedrooms,
                            bathrooms,
                            area_sqft,
                            images,
                            amenities,
                            is_available: p0.is_available,
                            created_at: p0.created_at,
                            updated_at: now,
                        };
                        &&& final(store).properties@ == old(store).properties@.update(
                            property_idx(old(store).properties@, property_id),
                            p1,
                        )
                        &&& (r matches Ok(rp) && prop_like(p1, rp))
                        &&& (*final(store) == (Storage {
                            properties: final(store).properties,
                            ..*old(store)
                        }))
                    }
                }),
            }
        }),
{
    if is_anonymous(caller) {
        return Err(LifecycleError::Unauthenticated);
    }
    let property = match store.get_property(property_id) {
        Some(p) => p,
        None => {
            return Err(LifecycleError::NotFound);
        },
    };
    if property.owner != caller {
        return Err(LifecycleError::Forbidden);
    }
    let user = match store.get_user(&caller) {
        Some(u) => u,
        None => {
            return Err(LifecycleError::NotFound);
        },
    };
    if user.role != Role::Landlord {
        return Err(LifecycleError::Forbidden);
    }
    let updated = Property {
        id: property_id,
        owner: property.owner,
        title,
        description,
        address,
        rent_amount,
        deposit_amount,
        property_type,
        bedrooms,
        bathrooms,
        area_sqft,
        images,
        amenities,
        is_available: property.is_available,
        created_at: property.created_at,
        updated_at: now,
    };
    let out = updated.clone();
    let upd = store.update_property(updated);
    proof {
        assert(upd is Ok);
    }
    Ok(out)
}

/// The owner removes a listing outright.
pub fn delete_property(store: &mut Storage, caller: Identity, property_id: u64) -> (r: Result<
    String,
    LifecycleError,
>)
    requires
        old(store).wf(),
    ensures
        final(store).wf(),
        ({
            let rej = owner_rejection(*old(store), caller, property_id);
            match rej {
                Some(e) => r == Err::<String, LifecycleError>(e) && *final(store) == *old(store),
                None => {
                    &&& final(store).properties@ == old(store).properties@.remove(
                        property_idx(old(store).properties@, property_id),
                    )
                    &&& (r matches Ok(m) && m@ == "Property deleted successfully"@)
                    &&& (*final(store) == (Storage {
                        properties: final(store).properties,
                        ..*old(store)
                    }))
                },
            }
        }),
{
    if is_anonymous(caller) {
        return Err(LifecycleError::Unauthenticated);
    }
    let property = match store.get_property(property_id) {
        Some(p) => p,
        None => {
            return Err(LifecycleError::NotFound);
        },
    };
    if property.owner != caller {
        return Err(LifecycleError::Forbidden);
    }
    let deleted = store.delete_property(property_id);
    proof {
        assert(deleted is Ok);
    }
    Ok("Property deleted successfully".to_owned())
}

} // verus!
