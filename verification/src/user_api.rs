//! Participant registration and profiles.

use vstd::prelude::*;

use crate::auth::{is_anonymous, Identity};
use crate::errors::LifecycleError;
use crate::storage::{has_user, user_at, user_idx, Storage};
use crate::user::{Role, User};

verus! {

/// Registers the caller under the given role; a principal registers only
/// once.
pub fn create_user(
    store: &mut Storage,
    caller: Identity,
    now: u64,
    role: Role,
    name: Option<String>,
    email: Option<String>,
    phone: Option<String>,
) -> (r: Result<User, LifecycleError>)
    requires
        old(store).wf(),
    ensures
        final(store).wf(),
        caller.is_anon() ==> r == Err::<User, LifecycleError>(LifecycleError::Unauthenticated)
            && *final(store) == *old(store),
        !caller.is_anon() && has_user(old(store).users@, caller) ==> r == Err::<
            User,
            LifecycleError,
        >(LifecycleError::InvalidState) && *final(store) == *old(store),
        !caller.is_anon() && !has_user(old(store).users@, caller) ==> ({
            let u = User {
                user_principal: caller,
                role,
                name,
                email,
                phone,
                created_at: now,
                updated_at: now,
            };
            &&& r == Ok::<User, LifecycleError>(u)
            &&& final(store).users@ == old(store).users@.push(u)
            &&& (*final(store) == (Storage { users: final(store).users, ..*old(store) }))
        }),
{
    if is_anonymous(caller) {
        return Err(LifecycleError::Unauthenticated);
    }
    let user = User::new(caller, role, name, email, phone, now);
    let out = user.clone();
    match store.create_user(user) {
        Ok(_) => Ok(out),
        Err(e) => Err(e),
    }
}

/// One user record, by principal, or the caller's own when none is named.
pub fn get_user(store: &Storage, caller: Identity, principal: Option<Identity>) -> (r: Result<
    User,
    LifecycleError,
>)
    requires
        store.wf(),
    ensures
        principal is None && caller.is_anon() ==> r == Err::<User, LifecycleError>(
            LifecycleError::Unauthenticated,
        ),
        !(principal is None && caller.is_anon()) ==> ({
            let target = if principal is Some {
                principal.unwrap()
            } else {
                caller
            };
            if has_user(store.users@, target) {
                r == Ok::<User, LifecycleError>(user_at(store.users@, target))
            } else {
                r == Err::<User, LifecycleError>(LifecycleError::NotFound)
            }
        }),
{
    let target = match principal {
        Some(p) => p,
        None => {
            if is_anonymous(caller) {
                return Err(LifecycleError::Unauthenticated);
            }
            caller
        },
    };
    match store.get_user(&target) {
        Some(u) => Ok(u),
        None => Err(LifecycleError::NotFound),
    }
}

/// The caller updates their own profile; omitted fields keep their value.
pub fn update_user_profile(
    store: &mut Storage,
    caller: Identity,
    now: u64,
    name: Option<String>,
    email: Option<String>,
    phone: Option<String>,
) -> (r: Result<User, LifecycleError>)
    requires
        old(store).wf(),
    ensures
        final(store).wf(),
        caller.is_anon() ==> r == Err::<User, LifecycleError>(LifecycleError::Unauthenticated)
            && *final(store) == *old(store),
        !caller.is_anon() && !has_user(old(store).users@, caller) ==> r == Err::<
            User,
            LifecycleError,
        >(LifecycleError::NotFound) && *final(store) == *old(store),
        !caller.is_anon() && has_user(old(store).users@, caller) ==> ({
            let u0 = user_at(old(store).users@, caller);
            let u1 = User {
                name: if name is Some { name } else { u0.name },
                email: if email is Some { email } else { u0.email },
                phone: if phone is Some { phone } else { u0.phone },
                updated_at: now,
                ..u0
            };
            &&& r == Ok::<User, LifecycleError>(u1)
            &&& final(store).users@ == old(store).users@.update(
                user_idx(old(store).users@, caller),
                u1,
            )
            &&& (*final(store) == (Storage { users: final(store).users, ..*old(store) }))
        }),
{
    if is_anonymous(caller) {
        return Err(LifecycleError::Unauthenticated);
    }
    let mut user = match store.get_user(&caller) {
        Some(u) => u,
        None => {
            return Err(LifecycleError::NotFound);
        },
    };
    user.update_profile(name, email, phone, now);
    store.update_user(&caller, user)
}

/// Every registered user.
pub fn get_all_users(store: &Storage) -> (r: Vec<User>)
    ensures
        r@ == store.users@,
{
    store.get_all_users()
}

/// The caller's own record.
pub fn get_my_profile(store: &Storage, caller: Identity) -> (r: Result<User, LifecycleError>)
    requires
        store.wf(),
    ensures
        caller.is_anon() ==> r == Err::<User, LifecycleError>(LifecycleError::Unauthenticated),
        !caller.is_anon() && has_user(store.users@, caller) ==> r == Ok::<User, LifecycleError>(
            user_at(store.users@, caller),
        ),
        !caller.is_anon() && !has_user(store.users@, caller) ==> r == Err::<User, LifecycleError>(
            LifecycleError::NotFound,
        ),
{
    if is_anonymous(caller) {
        return Err(LifecycleError::Unauthenticated);
    }
    get_user(store, caller, Some(caller))
}

} // verus!
