//! User records and the role enumeration.
//!
//! A user ties a caller identity to a role. The lifecycle engine reads roles
//! but never assigns them: a record is created once with its role and only
//! the profile fields change afterwards.

use vstd::prelude::*;

use crate::auth::Identity;

verus! {

/// The closed set of marketplace roles.
#[derive(Clone, Copy, PartialEq, Eq, Structural, Debug)]
pub enum Role {
    Landlord,
    Tenant,
}

/// A registered participant: an identity, its role, and an optional profile.
#[derive(Debug)]
pub struct User {
    pub user_principal: Identity,
    pub role: Role,
    pub name: Option<String>,
    pub email: Option<String>,
    pub phone: Option<String>,
    pub created_at: u64,
    pub updated_at: u64,
}

impl Clone for User {
    fn clone(&self) -> (res: Self)
        ensures
            res == *self,
    {
        User {
            user_principal: self.user_principal,
            role: self.role,
            name: self.name.clone(),
            email: self.email.clone(),
            phone: self.phone.clone(),
            created_at: self.created_at,
            updated_at: self.updated_at,
        }
    }
}

impl User {
    /// A fresh user record with both timestamps set to the creation instant.
    pub fn new(
        user_principal: Identity,
        role: Role,
        name: Option<String>,
        email: Option<String>,
        phone: Option<String>,
        now: u64,
    ) -> (r: User)
        ensures
            r == (User { user_principal, role, name, email, phone, created_at: now, updated_at: now }),
    {
        User { user_principal, role, name, email, phone, created_at: now, updated_at: now }
    }

    /// Replaces each profile field for which a new value is given; fields
    /// passed as `None` keep their previous value.
    pub fn update_profile(
        &mut self,
        name: Option<String>,
        email: Option<String>,
        phone: Option<String>,
        now: u64,
    )
        ensures
            *final(self) == (User {
                name: if name is Some { name } else { old(self).name },
                email: if email is Some { email } else { old(self).email },
                phone: if phone is Some { phone } else { old(self).phone },
                updated_at: now,
                ..*old(self)
            }),
    {
        if let Some(n) = name {
            self.name = Some(n);
        }
        if let Some(e) = email {
            self.email = Some(e);
        }
        if let Some(p) = phone {
            self.phone = Some(p);
        }
        self.updated_at = now;
    }
}

} // verus!
