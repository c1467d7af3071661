//! The record store: a durable key-to-record map per entity kind plus a
//! monotonically increasing id allocator per kind, passed to every
//! operation as an explicit handle.
//!
//! Each table is a vector in insertion order. Ids are handed out by the
//! per-kind counters, so every stored id is at most its counter and all ids
//! in a table are distinct; timeline events additionally sit in strictly
//! increasing id order, which makes the audit trail append-only by
//! construction.

use vstd::prelude::*;
use vstd::pervasive::VecAdditionalExecFns;

use crate::auth::Identity;
use crate::errors::LifecycleError;
use crate::escrow::{EscrowAccount, EscrowEventType, EscrowStatus, EscrowTimelineEvent};
use crate::image::PropertyImage;
use crate::nft::{nft_like, NFTMetadata};
use crate::property::{prop_like, Property};
use crate::rental::{RentalAgreement, RentalStatus};
use crate::user::{Role, User};

verus! {

// ---------------------------------------------------------------------------
// Lookup helpers over the record tables.
// ---------------------------------------------------------------------------

/// No two rentals share an id.
pub open spec fn rentals_unique(s: Seq<RentalAgreement>) -> bool {
    forall|i: int, j: int|
        0 <= i < s.len() && 0 <= j < s.len() && i != j ==> s[i].id != s[j].id
}

/// Some rental in the table carries this id.
pub open spec fn has_rental(s: Seq<RentalAgreement>, id: u64) -> bool {
    exists|i: int| 0 <= i < s.len() && s[i].id == id
}

/// The position of the rental with this id.
pub open spec fn rental_idx(s: Seq<RentalAgreement>, id: u64) -> int {
    choose|i: int| 0 <= i < s.len() && s[i].id == id
}

/// The rental with this id.
pub open spec fn rental_at(s: Seq<RentalAgreement>, id: u64) -> RentalAgreement {
    s[rental_idx(s, id)]
}

/// No two properties share an id.
pub open spec fn properties_unique(s: Seq<Property>) -> bool {
    forall|i: int, j: int|
        0 <= i < s.len() && 0 <= j < s.len() && i != j ==> s[i].id != s[j].id
}

/// Some property in the table carries this id.
pub open spec fn has_property(s: Seq<Property>, id: u64) -> bool {
    exists|i: int| 0 <= i < s.len() && s[i].id == id
}

/// The position of the property with this id.
pub open spec fn property_idx(s: Seq<Property>, id: u64) -> int {
    choose|i: int| 0 <= i < s.len() && s[i].id == id
}

/// The property with this id.
pub open spec fn property_at(s: Seq<Property>, id: u64) -> Property {
    s[property_idx(s, id)]
}

/// No two receipt records share an id.
pub open spec fn nfts_unique(s: Seq<NFTMetadata>) -> bool {
    forall|i: int, j: int|
        0 <= i < s.len() && 0 <= j < s.len() && i != j ==> s[i].id != s[j].id
}

/// Some receipt record in the table carries this id.
pub open spec fn has_nft(s: Seq<NFTMetadata>, id: u64) -> bool {
    exists|i: int| 0 <= i < s.len() && s[i].id == id
}

/// The position of the receipt record with this id.
pub open spec fn nft_idx(s: Seq<NFTMetadata>, id: u64) -> int {
    choose|i: int| 0 <= i < s.len() && s[i].id == id
}

/// The receipt record with this id.
pub open spec fn nft_at(s: Seq<NFTMetadata>, id: u64) -> NFTMetadata {
    s[nft_idx(s, id)]
}

/// No two escrow accounts share an id.
pub open spec fn escrows_unique(s: Seq<EscrowAccount>) -> bool {
    forall|i: int, j: int|
        0 <= i < s.len() && 0 <= j < s.len() && i != j ==> s[i].id != s[j].id
}

/// Some escrow account in the table carries this id.
pub open spec fn has_escrow(s: Seq<EscrowAccount>, id: u64) -> bool {
    exists|i: int| 0 <= i < s.len() && s[i].id == id
}

/// The position of the escrow account with this id.
pub open spec fn escrow_idx(s: Seq<EscrowAccount>, id: u64) -> int {
    choose|i: int| 0 <= i < s.len() && s[i].id == id
}

/// The escrow account with this id.
pub open spec fn escrow_at(s: Seq<EscrowAccount>, id: u64) -> EscrowAccount {
    s[escrow_idx(s, id)]
}

/// No two users share a principal.
pub open spec fn users_unique(s: Seq<User>) -> bool {
    forall|i: int, j: int|
        0 <= i < s.len() && 0 <= j < s.len() && i != j
            ==> s[i].user_principal != s[j].user_principal
}

/// Some user record carries this principal.
pub open spec fn has_user(s: Seq<User>, principal: Identity) -> bool {
    exists|i: int| 0 <= i < s.len() && s[i].user_principal == principal
}

/// The position of the user with this principal.
pub open spec fn user_idx(s: Seq<User>, principal: Identity) -> int {
    choose|i: int| 0 <= i < s.len() && s[i].user_principal == principal
}

/// The user with this principal.
pub open spec fn user_at(s: Seq<User>, principal: Identity) -> User {
    s[user_idx(s, principal)]
}

/// No two images share an id.
pub open spec fn images_unique(s: Seq<PropertyImage>) -> bool {
    forall|i: int, j: int|
        0 <= i < s.len() && 0 <= j < s.len() && i != j ==> s[i].id@ != s[j].id@
}

/// Some image carries this id.
pub open spec fn has_image(s: Seq<PropertyImage>, id: Seq<char>) -> bool {
    exists|i: int| 0 <= i < s.len() && s[i].id@ == id
}

/// The position of the image with this id.
pub open spec fn image_idx(s: Seq<PropertyImage>, id: Seq<char>) -> int {
    choose|i: int| 0 <= i < s.len() && s[i].id@ == id
}

/// The image with this id.
pub open spec fn image_at(s: Seq<PropertyImage>, id: Seq<char>) -> PropertyImage {
    s[image_idx(s, id)]
}

/// The escrow accounts in which this identity plays the given role.
pub open spec fn accounts_of(s: Seq<EscrowAccount>, user: Identity, role: Role) -> Seq<
    EscrowAccount,
> {
    match role {
        Role::Tenant => s.filter(|a: EscrowAccount| a.tenant == user),
        Role::Landlord => s.filter(|a: EscrowAccount| a.landlord == user),
    }
}

/// The total of the deposit amounts of these accounts.
pub open spec fn sum_amounts(s: Seq<EscrowAccount>) -> int
    decreases s.len(),
{
    if s.len() == 0 {
        0
    } else {
        sum_amounts(s.drop_last()) + s.last().amount
    }
}

// ---------------------------------------------------------------------------
// Small sequence lemmas shared by the scan loops.
// ---------------------------------------------------------------------------

/// Filtering an empty table keeps it empty.
pub proof fn lemma_filter_empty<A>(pred: spec_fn(A) -> bool)
    ensures
        Seq::<A>::empty().filter(pred) == Seq::<A>::empty(),
{
    reveal(Seq::filter);
}

/// Filtering distributes over appending one element.
pub proof fn lemma_filter_push<A>(s: Seq<A>, e: A, pred: spec_fn(A) -> bool)
    ensures
        s.push(e).filter(pred) == (if pred(e) {
            s.filter(pred).push(e)
        } else {
            s.filter(pred)
        }),
{
    reveal(Seq::filter);
    assert(s.push(e).drop_last() =~= s);
    assert(s.push(e).last() == e);
}

/// A table of property copies agrees pairwise with its source.
pub open spec fn props_like(f: Seq<Property>, r: Seq<Property>) -> bool {
    f.len() == r.len() && forall|i: int| 0 <= i < f.len() ==> prop_like(f[i], #[trigger] r[i])
}

/// Appending a faithful copy keeps two property tables related.
pub proof fn lemma_props_like_push(f: Seq<Property>, r: Seq<Property>, a: Property, b: Property)
    requires
        props_like(f, r),
        prop_like(a, b),
    ensures
        props_like(f.push(a), r.push(b)),
{
    let f2 = f.push(a);
    let r2 = r.push(b);
    assert forall|i: int| 0 <= i < f2.len() implies prop_like(f2[i], #[trigger] r2[i]) by {
        if i < f.len() {
            assert(f2[i] == f[i]);
            assert(r2[i] == r[i]);
            assert(prop_like(f[i], r[i]));
        } else {
            assert(f2[i] == a);
            assert(r2[i] == b);
        }
    }
}

/// A table of receipt-record copies agrees pairwise with its source.
pub open spec fn nfts_like(f: Seq<NFTMetadata>, r: Seq<NFTMetadata>) -> bool {
    f.len() == r.len() && forall|i: int| 0 <= i < f.len() ==> nft_like(f[i], #[trigger] r[i])
}

/// Appending a faithful copy keeps two receipt-record tables related.
pub proof fn lemma_nfts_like_push(
    f: Seq<NFTMetadata>,
    r: Seq<NFTMetadata>,
    a: NFTMetadata,
    b: NFTMetadata,
)
    requires
        nfts_like(f, r),
        nft_like(a, b),
    ensures
        nfts_like(f.push(a), r.push(b)),
{
    let f2 = f.push(a);
    let r2 = r.push(b);
    assert forall|i: int| 0 <= i < f2.len() implies nft_like(f2[i], #[trigger] r2[i]) by {
        if i < f.len() {
            assert(f2[i] == f[i]);
            assert(r2[i] == r[i]);
            assert(nft_like(f[i], r[i]));
        } else {
            assert(f2[i] == a);
            assert(r2[i] == b);
        }
    }
}

/// One scan step extends the running total by the amount just visited.
proof fn lemma_sum_take_succ(s: Seq<EscrowAccount>, i: int)
    requires
        0 <= i < s.len(),
    ensures
        sum_amounts(s.take(i + 1)) == sum_amounts(s.take(i)) + s[i].amount,
{
    assert(s.take(i + 1).drop_last() =~= s.take(i));
    assert(s.take(i + 1).last() == s[i]);
}

/// A prefix never totals more than the whole table.
proof fn lemma_sum_take_le(s: Seq<EscrowAccount>, i: int)
    requires
        0 <= i <= s.len(),
    ensures
        sum_amounts(s.take(i)) <= sum_amounts(s),
    decreases s.len() - i,
{
    if i == s.len() {
        assert(s.take(i) =~= s);
    } else {
        lemma_sum_take_le(s, i + 1);
        lemma_sum_take_succ(s, i);
    }
}

// ---------------------------------------------------------------------------
// The store itself.
// ---------------------------------------------------------------------------

/// All durable state of the marketplace: one table per entity kind plus the
/// id counter of each kind.
#[derive(Debug)]
pub struct Storage {
    pub users: Vec<User>,
    pub properties: Vec<Property>,
    pub rentals: Vec<RentalAgreement>,
    pub nfts: Vec<NFTMetadata>,
    pub escrow_accounts: Vec<EscrowAccount>,
    pub escrow_events: Vec<EscrowTimelineEvent>,
    pub images: Vec<PropertyImage>,
    pub property_counter: u64,
    pub rental_counter: u64,
    pub nft_counter: u64,
    pub escrow_counter: u64,
    pub escrow_event_counter: u64,
}

impl Storage {
    /// The store invariant: distinct keys per table, every id covered by its
    /// counter, events in strictly increasing id order, and every record's
    /// own invariant.
    pub open spec fn wf(self) -> bool {
        &&& users_unique(self.users@)
        &&& properties_unique(self.properties@)
        &&& rentals_unique(self.rentals@)
        &&& nfts_unique(self.nfts@)
        &&& escrows_unique(self.escrow_accounts@)
        &&& images_unique(self.images@)
        &&& forall|i: int|
            0 <= i < self.properties@.len()
                ==> (#[trigger] self.properties@[i]).id <= self.property_counter
        &&& forall|i: int|
            0 <= i < self.rentals@.len()
                ==> (#[trigger] self.rentals@[i]).id <= self.rental_counter
                    && self.rentals@[i].wf()
        &&& forall|i: int|
            0 <= i < self.nfts@.len() ==> (#[trigger] self.nfts@[i]).id <= self.nft_counter
        &&& forall|i: int|
            0 <= i < self.escrow_accounts@.len()
                ==> (#[trigger] self.escrow_accounts@[i]).id <= self.escrow_counter
                    && self.escrow_accounts@[i].wf()
        &&& forall|i: int|
            0 <= i < self.escrow_events@.len()
                ==> (#[trigger] self.escrow_events@[i]).id <= self.escrow_event_counter
        &&& forall|i: int, j: int|
            0 <= i < j < self.escrow_events@.len()
                ==> self.escrow_events@[i].id < self.escrow_events@[j].id
    }
}

/// A fresh, empty store with every counter at zero.
pub fn init_storage() -> (r: Storage)
    ensures
        r.wf(),
        r.users@ =~= Seq::<User>::empty(),
        r.properties@ =~= Seq::<Property>::empty(),
        r.rentals@ =~= Seq::<RentalAgreement>::empty(),
        r.nfts@ =~= Seq::<NFTMetadata>::empty(),
        r.escrow_accounts@ =~= Seq::<EscrowAccount>::empty(),
        r.escrow_events@ =~= Seq::<EscrowTimelineEvent>::empty(),
        r.images@ =~= Seq::<PropertyImage>::empty(),
        r.property_counter == 0,
        r.rental_counter == 0,
        r.nft_counter == 0,
        r.escrow_counter == 0,
        r.escrow_event_counter == 0,
{
    Storage {
        users: Vec::new(),
        properties: Vec::new(),
        rentals: Vec::new(),
        nfts: Vec::new(),
        escrow_accounts: Vec::new(),
        escrow_events: Vec::new(),
        images: Vec::new(),
        property_counter: 0,
        rental_counter: 0,
        nft_counter: 0,
        escrow_counter: 0,
        escrow_event_counter: 0,
    }
}

impl Storage {
    /// Allocates the next property id.
    pub fn get_next_property_id(&mut self) -> (id: u64)
        requires
            old(self).property_counter < u64::MAX,
        ensures
            id == old(self).property_counter + 1,
            *final(self) == (Storage { property_counter: id, ..*old(self) }),
            old(self).wf() ==> final(self).wf(),
    {
        self.property_counter = self.property_counter + 1;
        self.property_counter
    }

    /// Allocates the next rental id.
    pub fn get_next_rental_id(&mut self) -> (id: u64)
        requires
            old(self).rental_counter < u64::MAX,
        ensures
            id == old(self).rental_counter + 1,
            *final(self) == (Storage { rental_counter: id, ..*old(self) }),
            old(self).wf() ==> final(self).wf(),
    {
        self.rental_counter = self.rental_counter + 1;
        self.rental_counter
    }

    /// Allocates the next receipt-record id.
    pub fn get_next_nft_id(&mut self) -> (id: u64)
        requires
            old(self).nft_counter < u64::MAX,
        ensures
            id == old(self).nft_counter + 1,
            *final(self) == (Storage { nft_counter: id, ..*old(self) }),
            old(self).wf() ==> final(self).wf(),
    {
        self.nft_counter = self.nft_counter + 1;
        self.nft_counter
    }

    /// Allocates the next escrow-account id.
    pub fn get_next_escrow_id(&mut self) -> (id: u64)
        requires
            old(self).escrow_counter < u64::MAX,
        ensures
            id == old(self).escrow_counter + 1,
            *final(self) == (Storage { escrow_counter: id, ..*old(self) }),
            old(self).wf() ==> final(self).wf(),
    {
        self.escrow_counter = self.escrow_counter + 1;
        self.escrow_counter
    }

    /// Allocates the next timeline-event id.
    pub fn get_next_escrow_event_id(&mut self) -> (id: u64)
        requires
            old(self).escrow_event_counter < u64::MAX,
        ensures
            id == old(self).escrow_event_counter + 1,
            *final(self) == (Storage { escrow_event_counter: id, ..*old(self) }),
            old(self).wf() ==> final(self).wf(),
    {
        self.escrow_event_counter = self.escrow_event_counter + 1;
        self.escrow_event_counter
    }
}

// ---------------------------------------------------------------------------
// The user table.
// ---------------------------------------------------------------------------

impl Storage {
    /// Whether a user record exists for this principal.
    #[verifier::loop_isolation(false)]
    pub fn user_exists(&self, principal: &Identity) -> (r: bool)
        ensures
            r == has_user(self.users@, *principal),
    {
        let mut i: usize = 0;
        while i < self.users.len()
            invariant
                i <= self.users.len(),
                forall|j: int| 0 <= j < i as int ==> self.users@[j].user_principal != *principal,
            decreases self.users.len() - i,
        {
            if self.users[i].user_principal == *principal {
                return true;
            }
            i += 1;
        }
        proof {
            assert(!has_user(self.users@, *principal)) by {
                if has_user(self.users@, *principal) {
                    let k = user_idx(self.users@, *principal);
                    assert(0 <= k < self.users@.len() && self.users@[k].user_principal
                        == *principal);
                }
            }
        }
        false
    }

    /// Registers a new user; refuses a principal that already has a record.
    pub fn create_user(&mut self, user: User) -> (r: Result<(), LifecycleError>)
        requires
            old(self).wf(),
        ensures
            final(self).wf(),
            has_user(old(self).users@, user.user_principal) ==> r == Err::<(),
                LifecycleError,
            >(LifecycleError::InvalidState) && *final(self) == *old(self),
            !has_user(old(self).users@, user.user_principal) ==> r == Ok::<(), LifecycleError>(())
                && final(self).users@ == old(self).users@.push(user) && (*final(self) == (Storage {
                users: final(self).users,
                ..*old(self)
            })),
    {
        if self.user_exists(&user.user_principal) {
            return Err(LifecycleError::InvalidState);
        }
        self.users.push(user);
        Ok(())
    }

    /// Looks a user up by principal.
    #[verifier::loop_isolation(false)]
    pub fn get_user(&self, principal: &Identity) -> (r: Option<User>)
        requires
            self.wf(),
        ensures
            r == (if has_user(self.users@, *principal) {
                Some(user_at(self.users@, *principal))
            } else {
                None::<User>
            }),
    {
        let mut i: usize = 0;
        while i < self.users.len()
            invariant
                self.wf(),
                i <= self.users.len(),
                forall|j: int| 0 <= j < i as int ==> self.users@[j].user_principal != *principal,
            decreases self.users.len() - i,
        {
            if self.users[i].user_principal == *principal {
                proof {
                    assert(has_user(self.users@, *principal));
                    let k = user_idx(self.users@, *principal);
                    assert(0 <= k < self.users@.len() && self.users@[k].user_principal
                        == *principal);
                    assert(k == i as int);
                }
                return Some(self.users[i].clone());
            }
            i += 1;
        }
        proof {
            assert(!has_user(self.users@, *principal)) by {
                if has_user(self.users@, *principal) {
                    let k = user_idx(self.users@, *principal);
                    assert(0 <= k < self.users@.len() && self.users@[k].user_principal
                        == *principal);
                }
            }
        }
        None
    }

    /// Replaces the record stored for this principal.
    #[verifier::loop_isolation(false)]
    pub fn update_user(&mut self, principal: &Identity, updated_user: User) -> (r: Result<
        User,
        LifecycleError,
    >)
        requires
            old(self).wf(),
            updated_user.user_principal == *principal,
        ensures
            final(self).wf(),
            !has_user(old(self).users@, *principal) ==> r == Err::<User, LifecycleError>(
                LifecycleError::NotFound,
            ) && *final(self) == *old(self),
            has_user(old(self).users@, *principal) ==> r == Ok::<User, LifecycleError>(updated_user)
                && final(self).users@ == old(self).users@.update(
                user_idx(old(self).users@, *principal),
                updated_user,
            ) && (*final(self) == (Storage { users: final(self).users, ..*old(self) })),
    {
        let mut i: usize = 0;
        while i < self.users.len()
            invariant
                old(self).wf(),
                *self == *old(self),
                i <= self.users.len(),
                forall|j: int| 0 <= j < i as int ==> self.users@[j].user_principal != *principal,
            decreases self.users.len() - i,
        {
            if self.users[i].user_principal == *principal {
                proof {
                    assert(has_user(self.users@, *principal));
                    let k = user_idx(self.users@, *principal);
                    assert(0 <= k < self.users@.len() && self.users@[k].user_principal
                        == *principal);
                    assert(k == i as int);
                }
                let out = updated_user.clone();
                proof {
                    assert(self.users@[i as int].user_principal == *principal);
                }
                self.users.set(i, updated_user);
                proof {
                    let s0 = old(self).users@;
                    assert forall|x: int, y: int|
                        0 <= x < self.users@.len() && 0 <= y < self.users@.len() && x != y
                            implies self.users@[x].user_principal
                            != self.users@[y].user_principal by {
                        assert(s0[x].user_principal != s0[y].user_principal);
                        if x == i as int {
                            assert(self.users@[x].user_principal == s0[i as int].user_principal);
                            assert(self.users@[y] == s0[y]);
                        } else if y == i as int {
                            assert(self.users@[y].user_principal == s0[i as int].user_principal);
                            assert(self.users@[x] == s0[x]);
                        } else {
                            assert(self.users@[x] == s0[x]);
                            assert(self.users@[y] == s0[y]);
                        }
                    }
                }
                return Ok(out);
            }
            i += 1;
        }
        proof {
            assert(!has_user(self.users@, *principal)) by {
                if has_user(self.users@, *principal) {
                    let k = user_idx(self.users@, *principal);
                    assert(0 <= k < self.users@.len() && self.users@[k].user_principal
                        == *principal);
                }
            }
        }
        Err(LifecycleError::NotFound)
    }

    /// Every registered user.
    pub fn get_all_users(&self) -> (r: Vec<User>)
        ensures
            r@ == self.users@,
    {
        let r = self.users.clone();
        proof {
            assert(r@ =~= self.users@);
        }
        r
    }
}

// ---------------------------------------------------------------------------
// The property table.
// ---------------------------------------------------------------------------

impl Storage {
    /// Inserts a freshly listed property under a fresh id.
    pub fn create_property(&mut self, property: Property) -> (r: Result<(), LifecycleError>)
        requires
            old(self).wf(),
            property.id <= old(self).property_counter,
            !has_property(old(self).properties@, property.id),
        ensures
            final(self).wf(),
            r == Ok::<(), LifecycleError>(()),
            final(self).properties@ == old(self).properties@.push(property),
            *final(self) == (Storage { properties: final(self).properties, ..*old(self) }),
    {
        self.properties.push(property);
        Ok(())
    }

    /// Looks a property up by id; the returned copy carries the same
    /// contents as the stored record.
    #[verifier::loop_isolation(false)]
    pub fn get_property(&self, id: u64) -> (r: Option<Property>)
        requires
            self.wf(),
        ensures
            (r is Some) == has_property(self.properties@, id),
            r matches Some(p) ==> prop_like(property_at(self.properties@, id), p),
    {
        let mut i: usize = 0;
        while i < self.properties.len()
            invariant
                self.wf(),
                i <= self.properties.len(),
                forall|j: int| 0 <= j < i as int ==> self.properties@[j].id != id,
            decreases self.properties.len() - i,
        {
            if self.properties[i].id == id {
                proof {
                    assert(has_property(self.properties@, id));
                    let k = property_idx(self.properties@, id);
                    assert(0 <= k < self.properties@.len() && self.properties@[k].id == id);
                    assert(k == i as int);
                }
                return Some(self.properties[i].clone());
            }
            i += 1;
        }
        proof {
            assert(!has_property(self.properties@, id)) by {
                if has_property(self.properties@, id) {
                    let k = property_idx(self.properties@, id);
                    assert(0 <= k < self.properties@.len() && self.properties@[k].id == id);
                }
            }
        }
        None
    }

    /// Replaces the stored record that carries this property's id.
    #[verifier::loop_isolation(false)]
    pub fn update_property(&mut self, property: Property) -> (r: Result<(), LifecycleError>)
        requires
            old(self).wf(),
        ensures
            final(self).wf(),
            !has_property(old(self).properties@, property.id) ==> r == Err::<(), LifecycleError>(
                LifecycleError::NotFound,
            ) && *final(self) == *old(self),
            has_property(old(self).properties@, property.id) ==> r == Ok::<(), LifecycleError>(())
                && final(self).properties@ == old(self).properties@.update(
                property_idx(old(self).properties@, property.id),
                property,
            ) && (*final(self) == (Storage { properties: final(self).properties, ..*old(self) })),
    {
        let mut i: usize = 0;
        while i < self.properties.len()
            invariant
                old(self).wf(),
                *self == *old(self),
                i <= self.properties.len(),
                forall|j: int| 0 <= j < i as int ==> self.properties@[j].id != property.id,
            decreases self.properties.len() - i,
        {
            if self.properties[i].id == property.id {
                proof {
                    assert(has_property(self.properties@, property.id));
                    let k = property_idx(self.properties@, property.id);
                    assert(0 <= k < self.properties@.len() && self.properties@[k].id
                        == property.id);
                    assert(k == i as int);
                }
                self.properties.set(i, property);
                return Ok(());
            }
            i += 1;
        }
        proof {
            assert(!has_property(self.properties@, property.id)) by {
                if has_property(self.properties@, property.id) {
                    let k = property_idx(self.properties@, property.id);
                    assert(0 <= k < self.properties@.len() && self.properties@[k].id
                        == property.id);
                }
            }
        }
        Err(LifecycleError::NotFound)
    }

    /// Removes the property with this id.
    #[verifier::loop_isolation(false)]
    pub fn delete_property(&mut self, id: u64) -> (r: Result<(), LifecycleError>)
        requires
            old(self).wf(),
        ensures
            final(self).wf(),
            !has_property(old(self).properties@, id) ==> r == Err::<(), LifecycleError>(
                LifecycleError::NotFound,
            ) && *final(self) == *old(self),
            has_property(old(self).properties@, id) ==> r == Ok::<(), LifecycleError>(())
                && final(self).properties@ == old(self).properties@.remove(
                property_idx(old(self).properties@, id),
            ) && (*final(self) == (Storage { properties: final(self).properties, ..*old(self) })),
    {
        let mut i: usize = 0;
        while i < self.properties.len()
            invariant
                old(self).wf(),
                *self == *old(self),
                i <= self.properties.len(),
                forall|j: int| 0 <= j < i as int ==> self.properties@[j].id != id,
            decreases self.properties.len() - i,
        {
            if self.properties[i].id == id {
                proof {
                    assert(has_property(self.properties@, id));
                    let k = property_idx(self.properties@, id);
                    assert(0 <= k < self.properties@.len() && self.properties@[k].id == id);
                    assert(k == i as int);
                }
                self.properties.remove(i);
                return Ok(());
            }
            i += 1;
        }
        proof {
            assert(!has_property(self.properties@, id)) by {
                if has_property(self.properties@, id) {
                    let k = property_idx(self.properties@, id);
                    assert(0 <= k < self.properties@.len() && self.properties@[k].id == id);
                }
            }
        }
        Err(LifecycleError::NotFound)
    }

    /// Flips the availability flag of the stored record itself, leaving
    /// every other field of the record untouched.
    #[verifier::loop_isolation(false)]
    pub(crate) fn set_property_availability(
        &mut self,
        property_id: u64,
        available: bool,
        now: u64,
    ) -> (r: Result<(), LifecycleError>)
        requires
            old(self).wf(),
        ensures
            final(self).wf(),
            !has_property(old(self).properties@, property_id) ==> r == Err::<(), LifecycleError>(
                LifecycleError::NotFound,
            ) && *final(self) == *old(self),
            has_property(old(self).properties@, property_id) ==> r == Ok::<(), LifecycleError>(())
                && final(self).properties@ == old(self).properties@.update(
                property_idx(old(self).properties@, property_id),
                (Property {
                    is_available: available,
                    updated_at: now,
                    ..property_at(old(self).properties@, property_id)
                }),
            ) && (*final(self) == (Storage { properties: final(self).properties, ..*old(self) })),
    {
        let mut i: usize = 0;
        while i < self.properties.len()
            invariant
                i <= self.properties.len(),
                *self == *old(self),
                forall|j: int| 0 <= j < i as int ==> self.properties@[j].id != property_id,
            decreases self.properties.len() - i,
        {
            if self.properties[i].id == property_id {
                proof {
                    assert(has_property(self.properties@, property_id));
                    let k = property_idx(self.properties@, property_id);
                    assert(0 <= k < self.properties@.len() && self.properties@[k].id
                        == property_id);
                    assert(k == i as int);
                }
                let mut record = self.properties.remove(i);
                record.update_availability(available, now);
                self.properties.insert(i, record);
                proof {
                    assert(self.properties@ =~= old(self).properties@.update(
                        i as int,
                        (Property {
                            is_available: available,
                            updated_at: now,
                            ..property_at(old(self).properties@, property_id)
                        }),
                    ));
                }
                return Ok(());
            }
            i += 1;
        }
        proof {
            assert(!has_property(self.properties@, property_id)) by {
                if has_property(self.properties@, property_id) {
                    let k = property_idx(self.properties@, property_id);
                    assert(0 <= k < self.properties@.len() && self.properties@[k].id
                        == property_id);
                }
            }
        }
        Err(LifecycleError::NotFound)
    }

    /// Every listed property, copied in table order.
    pub fn get_all_properties(&self) -> (r: Vec<Property>)
        ensures
            props_like(self.properties@, r@),
    {
        self.properties.clone()
    }

    /// The properties owned by this landlord, in table order.
    #[verifier::loop_isolation(false)]
    pub fn get_properties_by_owner(&self, owner: &Identity) -> (r: Vec<Property>)
        ensures
            props_like(self.properties@.filter(|p: Property| p.owner == *owner), r@),
    {
        let ghost pred = |p: Property| p.owner == *owner;
        let mut r: Vec<Property> = Vec::new();
        let mut i: usize = 0;
        proof {
            assert(self.properties@.subrange(0, 0) =~= Seq::<Property>::empty());
            lemma_filter_empty(pred);
        }
        while i < self.properties.len()
            invariant
                i <= self.properties.len(),
                props_like(self.properties@.subrange(0, i as int).filter(pred), r@),
            decreases self.properties.len() - i,
        {
            let ghost f = self.properties@.subrange(0, i as int).filter(pred);
            proof {
                assert(self.properties@.subrange(0, i as int + 1) =~= self.properties@.subrange(
                    0,
                    i as int,
                ).push(self.properties@[i as int]));
                lemma_filter_push(
                    self.properties@.subrange(0, i as int),
                    self.properties@[i as int],
                    pred,
                );
            }
            if self.properties[i].owner == *owner {
                let copy = self.properties[i].clone();
                proof {
                    lemma_props_like_push(f, r@, self.properties@[i as int], copy);
                }
                r.push(copy);
            }
            i += 1;
        }
        proof {
            assert(self.properties@.subrange(0, self.properties@.len() as int)
                =~= self.properties@);
        }
        r
    }

    /// The properties currently marked available, in table order.
    #[verifier::loop_isolation(false)]
    pub fn get_available_properties(&self) -> (r: Vec<Property>)
        ensures
            props_like(self.properties@.filter(|p: Property| p.is_available), r@),
    {
        let ghost pred = |p: Property| p.is_available;
        let mut r: Vec<Property> = Vec::new();
        let mut i: usize = 0;
        proof {
            assert(self.properties@.subrange(0, 0) =~= Seq::<Property>::empty());
            lemma_filter_empty(pred);
        }
        while i < self.properties.len()
            invariant
                i <= self.properties.len(),
                props_like(self.properties@.subrange(0, i as int).filter(pred), r@),
            decreases self.properties.len() - i,
        {
            let ghost f = self.properties@.subrange(0, i as int).filter(pred);
            proof {
                assert(self.properties@.subrange(0, i as int + 1) =~= self.properties@.subrange(
                    0,
                    i as int,
                ).push(self.properties@[i as int]));
                lemma_filter_push(
                    self.properties@.subrange(0, i as int),
                    self.properties@[i as int],
                    pred,
                );
            }
            if self.properties[i].is_available {
                let copy = self.properties[i].clone();
                proof {
                    lemma_props_like_push(f, r@, self.properties@[i as int], copy);
                }
                r.push(copy);
            }
            i += 1;
        }
        proof {
            assert(self.properties@.subrange(0, self.properties@.len() as int)
                =~= self.properties@);
        }
        r
    }
}

// ---------------------------------------------------------------------------
// The rental and receipt-record tables.
// ---------------------------------------------------------------------------

impl Storage {
    /// Inserts a freshly requested agreement under a fresh id.
    pub fn create_rental(&mut self, rental: RentalAgreement) -> (r: Result<(), LifecycleError>)
        requires
            old(self).wf(),
            rental.wf(),
            rental.id <= old(self).rental_counter,
            !has_rental(old(self).rentals@, rental.id),
        ensures
            final(self).wf(),
            r == Ok::<(), LifecycleError>(()),
            final(self).rentals@ == old(self).rentals@.push(rental),
            *final(self) == (Storage { rentals: final(self).rentals, ..*old(self) }),
    {
        self.rentals.push(rental);
        Ok(())
    }

    /// Looks an agreement up by id.
    #[verifier::loop_isolation(false)]
    pub fn get_rental(&self, id: u64) -> (r: Option<RentalAgreement>)
        requires
            self.wf(),
        ensures
            r == (if has_rental(self.rentals@, id) {
                Some(rental_at(self.rentals@, id))
            } else {
                None::<RentalAgreement>
            }),
    {
        let mut i: usize = 0;
        while i < self.rentals.len()
            invariant
                i <= self.rentals.len(),
                forall|j: int| 0 <= j < i as int ==> self.rentals@[j].id != id,
            decreases self.rentals.len() - i,
        {
            if self.rentals[i].id == id {
                proof {
                    assert(has_rental(self.rentals@, id));
                    let k = rental_idx(self.rentals@, id);
                    assert(0 <= k < self.rentals@.len() && self.rentals@[k].id == id);
                    assert(k == i as int);
                }
                return Some(self.rentals[i]);
            }
            i += 1;
        }
        proof {
            assert(!has_rental(self.rentals@, id)) by {
                if has_rental(self.rentals@, id) {
                    let k = rental_idx(self.rentals@, id);
                    assert(0 <= k < self.rentals@.len() && self.rentals@[k].id == id);
                }
            }
        }
        None
    }

    /// Replaces the stored agreement that carries this rental's id.
    #[verifier::loop_isolation(false)]
    pub fn update_rental(&mut self, rental: RentalAgreement) -> (r: Result<(), LifecycleError>)
        requires
            old(self).wf(),
            rental.wf(),
        ensures
            final(self).wf(),
            !has_rental(old(self).rentals@, rental.id) ==> r == Err::<(), LifecycleError>(
                LifecycleError::NotFound,
            ) && *final(self) == *old(self),
            has_rental(old(self).rentals@, rental.id) ==> r == Ok::<(), LifecycleError>(())
                && final(self).rentals@ == old(self).rentals@.update(
                rental_idx(old(self).rentals@, rental.id),
                rental,
            ) && (*final(self) == (Storage { rentals: final(self).rentals, ..*old(self) })),
    {
        let mut i: usize = 0;
        while i < self.rentals.len()
            invariant
                i <= self.rentals.len(),
                *self == *old(self),
                forall|j: int| 0 <= j < i as int ==> self.rentals@[j].id != rental.id,
            decreases self.rentals.len() - i,
        {
            if self.rentals[i].id == rental.id {
                proof {
                    assert(has_rental(self.rentals@, rental.id));
                    let k = rental_idx(self.rentals@, rental.id);
                    assert(0 <= k < self.rentals@.len() && self.rentals@[k].id == rental.id);
                    assert(k == i as int);
                }
                self.rentals.set(i, rental);
                return Ok(());
            }
            i += 1;
        }
        proof {
            assert(!has_rental(self.rentals@, rental.id)) by {
                if has_rental(self.rentals@, rental.id) {
                    let k = rental_idx(self.rentals@, rental.id);
                    assert(0 <= k < self.rentals@.len() && self.rentals@[k].id == rental.id);
                }
            }
        }
        Err(LifecycleError::NotFound)
    }

    /// The agreements in which this identity is the tenant, in table order.
    #[verifier::loop_isolation(false)]
    pub fn get_rentals_by_tenant(&self, tenant: &Identity) -> (r: Vec<RentalAgreement>)
        ensures
            r@ == self.rentals@.filter(|x: RentalAgreement| x.tenant == *tenant),
    {
        let ghost pred = |x: RentalAgreement| x.tenant == *tenant;
        let mut r: Vec<RentalAgreement> = Vec::new();
        let mut i: usize = 0;
        proof {
            assert(self.rentals@.subrange(0, 0) =~= Seq::<RentalAgreement>::empty());
            lemma_filter_empty(pred);
        }
        while i < self.rentals.len()
            invariant
                i <= self.rentals.len(),
                r@ == self.rentals@.subrange(0, i as int).filter(pred),
            decreases self.rentals.len() - i,
        {
            proof {
                assert(self.rentals@.subrange(0, i as int + 1) =~= self.rentals@.subrange(
                    0,
                    i as int,
                ).push(self.rentals@[i as int]));
                lemma_filter_push(
                    self.rentals@.subrange(0, i as int),
                    self.rentals@[i as int],
                    pred,
                );
            }
            if self.rentals[i].tenant == *tenant {
                r.push(self.rentals[i]);
            }
            i += 1;
        }
        proof {
            assert(self.rentals@.subrange(0, self.rentals@.len() as int) =~= self.rentals@);
        }
        r
    }

    /// The agreements in which this identity is the landlord, in table
    /// order.
    #[verifier::loop_isolation(false)]
    pub fn get_rentals_by_landlord(&self, landlord: &Identity) -> (r: Vec<RentalAgreement>)
        ensures
            r@ == self.rentals@.filter(|x: RentalAgreement| x.landlord == *landlord),
    {
        let ghost pred = |x: RentalAgreement| x.landlord == *landlord;
        let mut r: Vec<RentalAgreement> = Vec::new();
        let mut i: usize = 0;
        proof {
            assert(self.rentals@.subrange(0, 0) =~= Seq::<RentalAgreement>::empty());
            lemma_filter_empty(pred);
        }
        while i < self.rentals.len()
            invariant
                i <= self.rentals.len(),
                r@ == self.rentals@.subrange(0, i as int).filter(pred),
            decreases self.rentals.len() - i,
        {
            proof {
                assert(self.rentals@.subrange(0, i as int + 1) =~= self.rentals@.subrange(
                    0,
                    i as int,
                ).push(self.rentals@[i as int]));
                lemma_filter_push(
                    self.rentals@.subrange(0, i as int),
                    self.rentals@[i as int],
                    pred,
                );
            }
            if self.rentals[i].landlord == *landlord {
                r.push(self.rentals[i]);
            }
            i += 1;
        }
        proof {
            assert(self.rentals@.subrange(0, self.rentals@.len() as int) =~= self.rentals@);
        }
        r
    }

    /// The first agreement recorded for this property, if any.
    #[verifier::loop_isolation(false)]
    pub fn get_rental_by_property(&self, property_id: u64) -> (r: Option<RentalAgreement>)
        ensures
            r matches Some(x) ==> exists|i: int|
                0 <= i < self.rentals@.len() && #[trigger] self.rentals@[i] == x
                    && x.property_id == property_id && (forall|j: int|
                    0 <= j < i ==> self.rentals@[j].property_id != property_id),
            r is None ==> forall|i: int|
                0 <= i < self.rentals@.len() ==> (#[trigger] self.rentals@[i]).property_id
                    != property_id,
    {
        let mut i: usize = 0;
        while i < self.rentals.len()
            invariant
                i <= self.rentals.len(),
                forall|j: int| 0 <= j < i as int ==> self.rentals@[j].property_id != property_id,
            decreases self.rentals.len() - i,
        {
            if self.rentals[i].property_id == property_id {
                return Some(self.rentals[i]);
            }
            i += 1;
        }
        None
    }

    /// Whether some agreement for this property is still in a non-terminal
    /// state.
    #[verifier::loop_isolation(false)]
    pub fn property_has_open_rental(&self, property_id: u64) -> (r: bool)
        ensures
            r == exists|i: int|
                0 <= i < self.rentals@.len() && (#[trigger] self.rentals@[i]).property_id
                    == property_id && !self.rentals@[i].status.is_terminal(),
    {
        let mut i: usize = 0;
        while i < self.rentals.len()
            invariant
                i <= self.rentals.len(),
                forall|j: int|
                    0 <= j < i as int ==> !((#[trigger] self.rentals@[j]).property_id == property_id
                        && !self.rentals@[j].status.is_terminal()),
            decreases self.rentals.len() - i,
        {
            let is_open = match self.rentals[i].status {
                RentalStatus::Completed => false,
                RentalStatus::Cancelled => false,
                _ => true,
            };
            if self.rentals[i].property_id == property_id && is_open {
                return true;
            }
            i += 1;
        }
        false
    }

    /// Inserts a freshly minted receipt record under a fresh id.
    pub fn create_nft(&mut self, nft: NFTMetadata) -> (r: Result<(), LifecycleError>)
        requires
            old(self).wf(),
            nft.id <= old(self).nft_counter,
            !has_nft(old(self).nfts@, nft.id),
        ensures
            final(self).wf(),
            r == Ok::<(), LifecycleError>(()),
            final(self).nfts@ == old(self).nfts@.push(nft),
            *final(self) == (Storage { nfts: final(self).nfts, ..*old(self) }),
    {
        self.nfts.push(nft);
        Ok(())
    }

    /// Looks a receipt record up by id; the returned copy carries the same
    /// contents as the stored record.
    #[verifier::loop_isolation(false)]
    pub fn get_nft(&self, id: u64) -> (r: Option<NFTMetadata>)
        requires
            self.wf(),
        ensures
            (r is Some) == has_nft(self.nfts@, id),
            r matches Some(n) ==> nft_like(nft_at(self.nfts@, id), n),
    {
        let mut i: usize = 0;
        while i < self.nfts.len()
            invariant
                i <= self.nfts.len(),
                forall|j: int| 0 <= j < i as int ==> self.nfts@[j].id != id,
            decreases self.nfts.len() - i,
        {
            if self.nfts[i].id == id {
                proof {
                    assert(has_nft(self.nfts@, id));
                    let k = nft_idx(self.nfts@, id);
                    assert(0 <= k < self.nfts@.len() && self.nfts@[k].id == id);
                    assert(k == i as int);
                }
                return Some(self.nfts[i].clone());
            }
            i += 1;
        }
        proof {
            assert(!has_nft(self.nfts@, id)) by {
                if has_nft(self.nfts@, id) {
                    let k = nft_idx(self.nfts@, id);
                    assert(0 <= k < self.nfts@.len() && self.nfts@[k].id == id);
                }
            }
        }
        None
    }

    /// The receipt records owned by this identity, in table order.
    #[verifier::loop_isolation(false)]
    pub fn get_nfts_by_owner(&self, owner: &Identity) -> (r: Vec<NFTMetadata>)
        ensures
            nfts_like(self.nfts@.filter(|n: NFTMetadata| n.owner == *owner), r@),
    {
        let ghost pred = |n: NFTMetadata| n.owner == *owner;
        let mut r: Vec<NFTMetadata> = Vec::new();
        let mut i: usize = 0;
        proof {
            assert(self.nfts@.subrange(0, 0) =~= Seq::<NFTMetadata>::empty());
            lemma_filter_empty(pred);
        }
        while i < self.nfts.len()
            invariant
                i <= self.nfts.len(),
                nfts_like(self.nfts@.subrange(0, i as int).filter(pred), r@),
            decreases self.nfts.len() - i,
        {
            let ghost f = self.nfts@.subrange(0, i as int).filter(pred);
            proof {
                assert(self.nfts@.subrange(0, i as int + 1) =~= self.nfts@.subrange(
                    0,
                    i as int,
                ).push(self.nfts@[i as int]));
                lemma_filter_push(self.nfts@.subrange(0, i as int), self.nfts@[i as int], pred);
            }
            if self.nfts[i].owner == *owner {
                let copy = self.nfts[i].clone();
                proof {
                    lemma_nfts_like_push(f, r@, self.nfts@[i as int], copy);
                }
                r.push(copy);
            }
            i += 1;
        }
        proof {
            assert(self.nfts@.subrange(0, self.nfts@.len() as int) =~= self.nfts@);
        }
        r
    }
}

// ---------------------------------------------------------------------------
// The escrow-account and timeline-event tables.
// ---------------------------------------------------------------------------

/// All the facts one audit event must carry: where it belongs, what
/// happened, when, and the money and reference involved. Free-form metadata
/// is never set by the engine.
pub open spec fn event_matches(
    ev: EscrowTimelineEvent,
    id: int,
    escrow_id: u64,
    event_type: EscrowEventType,
    title: Seq<char>,
    description: Seq<char>,
    timestamp: u64,
    amount: Option<u64>,
    transaction_hash: Option<String>,
) -> bool {
    &&& ev.id == id
    &&& ev.escrow_id == escrow_id
    &&& ev.event_type == event_type
    &&& ev.title@ == title
    &&& ev.description@ == description
    &&& ev.timestamp == timestamp
    &&& ev.amount == amount
    &&& ev.transaction_hash == transaction_hash
    &&& ev.metadata is None
}

impl Storage {
    /// Inserts a fresh escrow account and appends its `Created` audit
    /// event, as one step.
    pub fn create_escrow_account(&mut self, escrow: EscrowAccount) -> (r: Result<
        (),
        LifecycleError,
    >)
        requires
            old(self).wf(),
            escrow.wf(),
            escrow.id <= old(self).escrow_counter,
            !has_escrow(old(self).escrow_accounts@, escrow.id),
            old(self).escrow_event_counter < u64::MAX,
        ensures
            final(self).wf(),
            r == Ok::<(), LifecycleError>(()),
            final(self).escrow_accounts@ == old(self).escrow_accounts@.push(escrow),
            final(self).escrow_events@ == old(self).escrow_events@.push(
                final(self).escrow_events@.last(),
            ),
            event_matches(
                final(self).escrow_events@.last(),
                old(self).escrow_event_counter + 1,
                escrow.id,
                EscrowEventType::Created,
                "Escrow Account Created"@,
                "Security deposit escrow account has been created for this rental agreement"@,
                escrow.created_at,
                Some(escrow.amount),
                None::<String>,
            ),
            final(self).escrow_event_counter == old(self).escrow_event_counter + 1,
            *final(self) == (Storage {
                escrow_accounts: final(self).escrow_accounts,
                escrow_events: final(self).escrow_events,
                escrow_event_counter: final(self).escrow_event_counter,
                ..*old(self)
            }),
    {
        let ghost amount = escrow.amount;
        let ghost created_at = escrow.created_at;
        let escrow_id = escrow.id;
        self.escrow_accounts.push(escrow);
        let id = self.get_next_escrow_event_id();
        let event = EscrowTimelineEvent {
            id,
            escrow_id,
            event_type: EscrowEventType::Created,
            title: "Escrow Account Created".to_owned(),
            description: "Security deposit escrow account has been created for this rental agreement".to_owned(),
            timestamp: self.escrow_accounts[self.escrow_accounts.len() - 1].created_at,
            amount: Some(self.escrow_accounts[self.escrow_accounts.len() - 1].amount),
            transaction_hash: None,
            metadata: None,
        };
        self.escrow_events.push(event);
        Ok(())
    }

    /// Looks an escrow account up by id.
    #[verifier::loop_isolation(false)]
    pub fn get_escrow_account(&self, id: u64) -> (r: Option<EscrowAccount>)
        requires
            self.wf(),
        ensures
            r == (if has_escrow(self.escrow_accounts@, id) {
                Some(escrow_at(self.escrow_accounts@, id))
            } else {
                None::<EscrowAccount>
            }),
    {
        let mut i: usize = 0;
        while i < self.escrow_accounts.len()
            invariant
                i <= self.escrow_accounts.len(),
                forall|j: int| 0 <= j < i as int ==> self.escrow_accounts@[j].id != id,
            decreases self.escrow_accounts.len() - i,
        {
            if self.escrow_accounts[i].id == id {
                proof {
                    assert(has_escrow(self.escrow_accounts@, id));
                    let k = escrow_idx(self.escrow_accounts@, id);
                    assert(0 <= k < self.escrow_accounts@.len() && self.escrow_accounts@[k].id
                        == id);
                    assert(k == i as int);
                }
                return Some(self.escrow_accounts[i].clone());
            }
            i += 1;
        }
        proof {
            assert(!has_escrow(self.escrow_accounts@, id)) by {
                if has_escrow(self.escrow_accounts@, id) {
                    let k = escrow_idx(self.escrow_accounts@, id);
                    assert(0 <= k < self.escrow_accounts@.len() && self.escrow_accounts@[k].id
                        == id);
                }
            }
        }
        None
    }

    /// Replaces the stored account that carries this account's id.
    #[verifier::loop_isolation(false)]
    pub fn update_escrow_account(&mut self, escrow: EscrowAccount) -> (r: Result<
        (),
        LifecycleError,
    >)
        requires
            old(self).wf(),
            escrow.wf(),
        ensures
            final(self).wf(),
            !has_escrow(old(self).escrow_accounts@, escrow.id) ==> r == Err::<(), LifecycleError>(
                LifecycleError::NotFound,
            ) && *final(self) == *old(self),
            has_escrow(old(self).escrow_accounts@, escrow.id) ==> r == Ok::<(), LifecycleError>(())
                && final(self).escrow_accounts@ == old(self).escrow_accounts@.update(
                escrow_idx(old(self).escrow_accounts@, escrow.id),
                escrow,
            ) && (*final(self) == (Storage {
                escrow_accounts: final(self).escrow_accounts,
                ..*old(self)
            })),
    {
        let mut i: usize = 0;
        while i < self.escrow_accounts.len()
            invariant
                i <= self.escrow_accounts.len(),
                *self == *old(self),
                forall|j: int| 0 <= j < i as int ==> self.escrow_accounts@[j].id != escrow.id,
            decreases self.escrow_accounts.len() - i,
        {
            if self.escrow_accounts[i].id == escrow.id {
                proof {
                    assert(has_escrow(self.escrow_accounts@, escrow.id));
                    let k = escrow_idx(self.escrow_accounts@, escrow.id);
                    assert(0 <= k < self.escrow_accounts@.len() && self.escrow_accounts@[k].id
                        == escrow.id);
                    assert(k == i as int);
                }
                self.escrow_accounts.set(i, escrow);
                return Ok(());
            }
            i += 1;
        }
        proof {
            assert(!has_escrow(self.escrow_accounts@, escrow.id)) by {
                if has_escrow(self.escrow_accounts@, escrow.id) {
                    let k = escrow_idx(self.escrow_accounts@, escrow.id);
                    assert(0 <= k < self.escrow_accounts@.len() && self.escrow_accounts@[k].id
                        == escrow.id);
                }
            }
        }
        Err(LifecycleError::NotFound)
    }

    /// The accounts in which this identity is the tenant, in table order.
    #[verifier::loop_isolation(false)]
    pub fn get_escrow_accounts_by_tenant(&self, tenant: &Identity) -> (r: Vec<EscrowAccount>)
        ensures
            r@ == self.escrow_accounts@.filter(|a: EscrowAccount| a.tenant == *tenant),
    {
        let ghost pred = |a: EscrowAccount| a.tenant == *tenant;
        let mut r: Vec<EscrowAccount> = Vec::new();
        let mut i: usize = 0;
        proof {
            assert(self.escrow_accounts@.subrange(0, 0) =~= Seq::<EscrowAccount>::empty());
            lemma_filter_empty(pred);
        }
        while i < self.escrow_accounts.len()
            invariant
                i <= self.escrow_accounts.len(),
                r@ == self.escrow_accounts@.subrange(0, i as int).filter(pred),
            decreases self.escrow_accounts.len() - i,
        {
            proof {
                assert(self.escrow_accounts@.subrange(0, i as int + 1)
                    =~= self.escrow_accounts@.subrange(0, i as int).push(
                    self.escrow_accounts@[i as int],
                ));
                lemma_filter_push(
                    self.escrow_accounts@.subrange(0, i as int),
                    self.escrow_accounts@[i as int],
                    pred,
                );
            }
            if self.escrow_accounts[i].tenant == *tenant {
                r.push(self.escrow_accounts[i].clone());
            }
            i += 1;
        }
        proof {
            assert(self.escrow_accounts@.subrange(0, self.escrow_accounts@.len() as int)
                =~= self.escrow_accounts@);
        }
        r
    }

    /// The accounts in which this identity is the landlord, in table order.
    #[verifier::loop_isolation(false)]
    pub fn get_escrow_accounts_by_landlord(&self, landlord: &Identity) -> (r: Vec<EscrowAccount>)
        ensures
            r@ == self.escrow_accounts@.filter(|a: EscrowAccount| a.landlord == *landlord),
    {
        let ghost pred = |a: EscrowAccount| a.landlord == *landlord;
        let mut r: Vec<EscrowAccount> = Vec::new();
        let mut i: usize = 0;
        proof {
            assert(self.escrow_accounts@.subrange(0, 0) =~= Seq::<EscrowAccount>::empty());
            lemma_filter_empty(pred);
        }
        while i < self.escrow_accounts.len()
            invariant
                i <= self.escrow_accounts.len(),
                r@ == self.escrow_accounts@.subrange(0, i as int).filter(pred),
            decreases self.escrow_accounts.len() - i,
        {
            proof {
                assert(self.escrow_accounts@.subrange(0, i as int + 1)
                    =~= self.escrow_accounts@.subrange(0, i as int).push(
                    self.escrow_accounts@[i as int],
                ));
                lemma_filter_push(
                    self.escrow_accounts@.subrange(0, i as int),
                    self.escrow_accounts@[i as int],
                    pred,
                );
            }
            if self.escrow_accounts[i].landlord == *landlord {
                r.push(self.escrow_accounts[i].clone());
            }
            i += 1;
        }
        proof {
            assert(self.escrow_accounts@.subrange(0, self.escrow_accounts@.len() as int)
                =~= self.escrow_accounts@);
        }
        r
    }

    /// The accounts attached to this rental, in table order.
    #[verifier::loop_isolation(false)]
    pub fn get_escrow_accounts_by_rental(&self, rental_id: u64) -> (r: Vec<EscrowAccount>)
        ensures
            r@ == self.escrow_accounts@.filter(|a: EscrowAccount| a.rental_id == rental_id),
    {
        let ghost pred = |a: EscrowAccount| a.rental_id == rental_id;
        let mut r: Vec<EscrowAccount> = Vec::new();
        let mut i: usize = 0;
        proof {
            assert(self.escrow_accounts@.subrange(0, 0) =~= Seq::<EscrowAccount>::empty());
            lemma_filter_empty(pred);
        }
        while i < self.escrow_accounts.len()
            invariant
                i <= self.escrow_accounts.len(),
                r@ == self.escrow_accounts@.subrange(0, i as int).filter(pred),
            decreases self.escrow_accounts.len() - i,
        {
            proof {
                assert(self.escrow_accounts@.subrange(0, i as int + 1)
                    =~= self.escrow_accounts@.subrange(0, i as int).push(
                    self.escrow_accounts@[i as int],
                ));
                lemma_filter_push(
                    self.escrow_accounts@.subrange(0, i as int),
                    self.escrow_accounts@[i as int],
                    pred,
                );
            }
            if self.escrow_accounts[i].rental_id == rental_id {
                r.push(self.escrow_accounts[i].clone());
            }
            i += 1;
        }
        proof {
            assert(self.escrow_accounts@.subrange(0, self.escrow_accounts@.len() as int)
                =~= self.escrow_accounts@);
        }
        r
    }

    /// The accounts attached to this property, in table order.
    #[verifier::loop_isolation(false)]
    pub fn get_escrow_accounts_by_property(&self, property_id: u64) -> (r: Vec<EscrowAccount>)
        ensures
            r@ == self.escrow_accounts@.filter(|a: EscrowAccount| a.property_id == property_id),
    {
        let ghost pred = |a: EscrowAccount| a.property_id == property_id;
        let mut r: Vec<EscrowAccount> = Vec::new();
        let mut i: usize = 0;
        proof {
            assert(self.escrow_accounts@.subrange(0, 0) =~= Seq::<EscrowAccount>::empty());
            lemma_filter_empty(pred);
        }
        while i < self.escrow_accounts.len()
            invariant
                i <= self.escrow_accounts.len(),
                r@ == self.escrow_accounts@.subrange(0, i as int).filter(pred),
            decreases self.escrow_accounts.len() - i,
        {
            proof {
                assert(self.escrow_accounts@.subrange(0, i as int + 1)
                    =~= self.escrow_accounts@.subrange(0, i as int).push(
                    self.escrow_accounts@[i as int],
                ));
                lemma_filter_push(
                    self.escrow_accounts@.subrange(0, i as int),
                    self.escrow_accounts@[i as int],
                    pred,
                );
            }
            if self.escrow_accounts[i].property_id == property_id {
                r.push(self.escrow_accounts[i].clone());
            }
            i += 1;
        }
        proof {
            assert(self.escrow_accounts@.subrange(0, self.escrow_accounts@.len() as int)
                =~= self.escrow_accounts@);
        }
        r
    }

    /// The accounts currently in the given status, in table order.
    #[verifier::loop_isolation(false)]
    pub fn get_escrow_accounts_by_status(&self, status: EscrowStatus) -> (r: Vec<EscrowAccount>)
        ensures
            r@ == self.escrow_accounts@.filter(|a: EscrowAccount| a.status == status),
    {
        let ghost pred = |a: EscrowAccount| a.status == status;
        let mut r: Vec<EscrowAccount> = Vec::new();
        let mut i: usize = 0;
        proof {
            assert(self.escrow_accounts@.subrange(0, 0) =~= Seq::<EscrowAccount>::empty());
            lemma_filter_empty(pred);
        }
        while i < self.escrow_accounts.len()
            invariant
                i <= self.escrow_accounts.len(),
                r@ == self.escrow_accounts@.subrange(0, i as int).filter(pred),
            decreases self.escrow_accounts.len() - i,
        {
            proof {
                assert(self.escrow_accounts@.subrange(0, i as int + 1)
                    =~= self.escrow_accounts@.subrange(0, i as int).push(
                    self.escrow_accounts@[i as int],
                ));
                lemma_filter_push(
                    self.escrow_accounts@.subrange(0, i as int),
                    self.escrow_accounts@[i as int],
                    pred,
                );
            }
            if self.escrow_accounts[i].status == status {
                r.push(self.escrow_accounts[i].clone());
            }
            i += 1;
        }
        proof {
            assert(self.escrow_accounts@.subrange(0, self.escrow_accounts@.len() as int)
                =~= self.escrow_accounts@);
        }
        r
    }

    /// The accounts whose submission window has lapsed unused, in table
    /// order.
    #[verifier::loop_isolation(false)]
    pub fn get_overdue_escrow_accounts(&self, now: u64) -> (r: Vec<EscrowAccount>)
        ensures
            r@ == self.escrow_accounts@.filter(|a: EscrowAccount| a.spec_is_overdue(now)),
    {
        let ghost pred = |a: EscrowAccount| a.spec_is_overdue(now);
        let mut r: Vec<EscrowAccount> = Vec::new();
        let mut i: usize = 0;
        proof {
            assert(self.escrow_accounts@.subrange(0, 0) =~= Seq::<EscrowAccount>::empty());
            lemma_filter_empty(pred);
        }
        while i < self.escrow_accounts.len()
            invariant
                i <= self.escrow_accounts.len(),
                r@ == self.escrow_accounts@.subrange(0, i as int).filter(pred),
            decreases self.escrow_accounts.len() - i,
        {
            proof {
                assert(self.escrow_accounts@.subrange(0, i as int + 1)
                    =~= self.escrow_accounts@.subrange(0, i as int).push(
                    self.escrow_accounts@[i as int],
                ));
                lemma_filter_push(
                    self.escrow_accounts@.subrange(0, i as int),
                    self.escrow_accounts@[i as int],
                    pred,
                );
            }
            if self.escrow_accounts[i].is_overdue(now) {
                r.push(self.escrow_accounts[i].clone());
            }
            i += 1;
        }
        proof {
            assert(self.escrow_accounts@.subrange(0, self.escrow_accounts@.len() as int)
                =~= self.escrow_accounts@);
        }
        r
    }

    /// Appends an already-built audit event; its id must be fresh and newer
    /// than every event on file.
    pub fn create_timeline_event(&mut self, event: EscrowTimelineEvent) -> (r: Result<
        (),
        LifecycleError,
    >)
        requires
            old(self).wf(),
            event.id <= old(self).escrow_event_counter,
            forall|j: int|
                0 <= j < old(self).escrow_events@.len() ==> (#[trigger] old(self).escrow_events@[j]).id < event.id,
        ensures
            final(self).wf(),
            r == Ok::<(), LifecycleError>(()),
            final(self).escrow_events@ == old(self).escrow_events@.push(event),
            *final(self) == (Storage { escrow_events: final(self).escrow_events, ..*old(self) }),
    {
        self.escrow_events.push(event);
        Ok(())
    }

    /// Builds and appends one audit event under a freshly allocated id.
    pub fn add_timeline_event(
        &mut self,
        escrow_id: u64,
        event_type: EscrowEventType,
        title: String,
        description: String,
        amount: Option<u64>,
        transaction_hash: Option<String>,
        now: u64,
    ) -> (r: Result<(), LifecycleError>)
        requires
            old(self).wf(),
            old(self).escrow_event_counter < u64::MAX,
        ensures
            final(self).wf(),
            r == Ok::<(), LifecycleError>(()),
            final(self).escrow_events@ == old(self).escrow_events@.push(
                final(self).escrow_events@.last(),
            ),
            event_matches(
                final(self).escrow_events@.last(),
                old(self).escrow_event_counter + 1,
                escrow_id,
                event_type,
                title@,
                description@,
                now,
                amount,
                transaction_hash,
            ),
            final(self).escrow_event_counter == old(self).escrow_event_counter + 1,
            *final(self) == (Storage {
                escrow_events: final(self).escrow_events,
                escrow_event_counter: final(self).escrow_event_counter,
                ..*old(self)
            }),
    {
        let id = self.get_next_escrow_event_id();
        let event = EscrowTimelineEvent {
            id,
            escrow_id,
            event_type,
            title,
            description,
            timestamp: now,
            amount,
            transaction_hash,
            metadata: None,
        };
        self.create_timeline_event(event)
    }

    /// The audit trail of one account, in insertion order.
    #[verifier::loop_isolation(false)]
    pub fn get_timeline_events_by_escrow(&self, escrow_id: u64) -> (r: Vec<EscrowTimelineEvent>)
        ensures
            r@ == self.escrow_events@.filter(|e: EscrowTimelineEvent| e.escrow_id == escrow_id),
    {
        let ghost pred = |e: EscrowTimelineEvent| e.escrow_id == escrow_id;
        let mut r: Vec<EscrowTimelineEvent> = Vec::new();
        let mut i: usize = 0;
        proof {
            assert(self.escrow_events@.subrange(0, 0) =~= Seq::<EscrowTimelineEvent>::empty());
            lemma_filter_empty(pred);
        }
        while i < self.escrow_events.len()
            invariant
                i <= self.escrow_events.len(),
                r@ == self.escrow_events@.subrange(0, i as int).filter(pred),
            decreases self.escrow_events.len() - i,
        {
            proof {
                assert(self.escrow_events@.subrange(0, i as int + 1)
                    =~= self.escrow_events@.subrange(0, i as int).push(
                    self.escrow_events@[i as int],
                ));
                lemma_filter_push(
                    self.escrow_events@.subrange(0, i as int),
                    self.escrow_events@[i as int],
                    pred,
                );
            }
            if self.escrow_events[i].escrow_id == escrow_id {
                r.push(self.escrow_events[i].clone());
            }
            i += 1;
        }
        proof {
            assert(self.escrow_events@.subrange(0, self.escrow_events@.len() as int)
                =~= self.escrow_events@);
        }
        r
    }

    /// The total deposit amount held across this identity's accounts in the
    /// given role.
    #[verifier::loop_isolation(false)]
    pub fn get_total_escrow_amount_by_user(&self, user: &Identity, role: Role) -> (r: u64)
        requires
            sum_amounts(accounts_of(self.escrow_accounts@, *user, role)) <= u64::MAX,
        ensures
            r == sum_amounts(accounts_of(self.escrow_accounts@, *user, role)),
    {
        let accounts = match role {
            Role::Tenant => self.get_escrow_accounts_by_tenant(user),
            Role::Landlord => self.get_escrow_accounts_by_landlord(user),
        };
        proof {
            assert(accounts@ == accounts_of(self.escrow_accounts@, *user, role));
            assert(accounts@.take(0) =~= Seq::<EscrowAccount>::empty());
        }
        let mut total: u64 = 0;
        let mut i: usize = 0;
        while i < accounts.len()
            invariant
                i <= accounts.len(),
                total == sum_amounts(accounts@.take(i as int)),
            decreases accounts.len() - i,
        {
            proof {
                lemma_sum_take_succ(accounts@, i as int);
                lemma_sum_take_le(accounts@, i as int + 1);
                assert(accounts@.take(accounts@.len() as int) =~= accounts@);
            }
            total = total + accounts[i].amount;
            i += 1;
        }
        proof {
            assert(accounts@.take(accounts@.len() as int) =~= accounts@);
        }
        total
    }

    /// Dashboard counters over this identity's accounts in the given role:
    /// how many in all, in active custody, pending, completed, and overdue.
    #[verifier::loop_isolation(false)]
    pub fn get_escrow_stats_by_user(&self, user: &Identity, role: Role, now: u64) -> (r: (
        u64,
        u64,
        u64,
        u64,
        u64,
    ))
        ensures
            ({
                let f = accounts_of(self.escrow_accounts@, *user, role);
                &&& r.0 == f.len()
                &&& r.1 == f.filter(
                    |a: EscrowAccount|
                        a.status == EscrowStatus::ActiveProtection || a.status
                            == EscrowStatus::FundsSecured,
                ).len()
                &&& r.2 == f.filter(
                    |a: EscrowAccount|
                        a.status == EscrowStatus::PendingSubmission || a.status
                            == EscrowStatus::UnderReview,
                ).len()
                &&& r.3 == f.filter(|a: EscrowAccount| a.status == EscrowStatus::Completed).len()
                &&& r.4 == f.filter(|a: EscrowAccount| a.spec_is_overdue(now)).len()
            }),
    {
        let ghost active_pred = |a: EscrowAccount|
            a.status == EscrowStatus::ActiveProtection || a.status == EscrowStatus::FundsSecured;
        let ghost pending_pred = |a: EscrowAccount|
            a.status == EscrowStatus::PendingSubmission || a.status == EscrowStatus::UnderReview;
        let ghost completed_pred = |a: EscrowAccount| a.status == EscrowStatus::Completed;
        let ghost overdue_pred = |a: EscrowAccount| a.spec_is_overdue(now);
        let accounts = match role {
            Role::Tenant => self.get_escrow_accounts_by_tenant(user),
            Role::Landlord => self.get_escrow_accounts_by_landlord(user),
        };
        proof {
            assert(accounts@ == accounts_of(self.escrow_accounts@, *user, role));
            assert(accounts@.subrange(0, 0) =~= Seq::<EscrowAccount>::empty());
            lemma_filter_empty(active_pred);
            lemma_filter_empty(pending_pred);
            lemma_filter_empty(completed_pred);
            lemma_filter_empty(overdue_pred);
        }
        let total: u64 = accounts.len() as u64;
        let mut active: usize = 0;
        let mut pending: usize = 0;
        let mut completed: usize = 0;
        let mut overdue: usize = 0;
        let mut i: usize = 0;
        while i < accounts.len()
            invariant
                i <= accounts.len(),
                active == accounts@.subrange(0, i as int).filter(active_pred).len(),
                pending == accounts@.subrange(0, i as int).filter(pending_pred).len(),
                completed == accounts@.subrange(0, i as int).filter(completed_pred).len(),
                overdue == accounts@.subrange(0, i as int).filter(overdue_pred).len(),
                active <= i && pending <= i && completed <= i && overdue <= i,
            decreases accounts.len() - i,
        {
            proof {
                assert(accounts@.subrange(0, i as int + 1) =~= accounts@.subrange(0, i as int).push(
                    accounts@[i as int],
                ));
                lemma_filter_push(accounts@.subrange(0, i as int), accounts@[i as int], active_pred);
                lemma_filter_push(
                    accounts@.subrange(0, i as int),
                    accounts@[i as int],
                    pending_pred,
                );
                lemma_filter_push(
                    accounts@.subrange(0, i as int),
                    accounts@[i as int],
                    completed_pred,
                );
                lemma_filter_push(
                    accounts@.subrange(0, i as int),
                    accounts@[i as int],
                    overdue_pred,
                );
            }
            let status_active = match accounts[i].status {
                EscrowStatus::ActiveProtection => true,
                EscrowStatus::FundsSecured => true,
                _ => false,
            };
            let status_pending = match accounts[i].status {
                EscrowStatus::PendingSubmission => true,
                EscrowStatus::UnderReview => true,
                _ => false,
            };
            if status_active {
                active += 1;
            }
            if status_pending {
                pending += 1;
            }
            if accounts[i].status == EscrowStatus::Completed {
                completed += 1;
            }
            if accounts[i].is_overdue(now) {
                overdue += 1;
            }
            i += 1;
        }
        proof {
            assert(accounts@.subrange(0, accounts@.len() as int) =~= accounts@);
        }
        (total, active as u64, pending as u64, completed as u64, overdue as u64)
    }
}

// ---------------------------------------------------------------------------
// The image table.
// ---------------------------------------------------------------------------

impl Storage {
    /// Stores an image under its own id, replacing any image already stored
    /// under that id, and hands the id back.
    #[verifier::loop_isolation(false)]
    pub fn store_image(&mut self, image: PropertyImage) -> (r: Result<String, LifecycleError>)
        requires
            old(self).wf(),
        ensures
            final(self).wf(),
            r == Ok::<String, LifecycleError>(image.id),
            has_image(old(self).images@, image.id@) ==> final(self).images@ == old(self).images@.update(image_idx(old(self).images@, image.id@), image),
            !has_image(old(self).images@, image.id@) ==> final(self).images@ == old(self).images@.push(image),
            *final(self) == (Storage { images: final(self).images, ..*old(self) }),
    {
        let image_id = image.id.clone();
        let mut i: usize = 0;
        while i < self.images.len()
            invariant
                i <= self.images.len(),
                *self == *old(self),
                forall|j: int| 0 <= j < i as int ==> self.images@[j].id@ != image.id@,
            decreases self.images.len() - i,
        {
            if self.images[i].id == image.id {
                proof {
                    assert(has_image(self.images@, image.id@));
                    let k = image_idx(self.images@, image.id@);
                    assert(0 <= k < self.images@.len() && self.images@[k].id@ == image.id@);
                    assert(k == i as int);
                }
                self.images.set(i, image);
                proof {
                    let s0 = old(self).images@;
                    assert forall|x: int, y: int|
                        0 <= x < self.images@.len() && 0 <= y < self.images@.len() && x != y
                            implies self.images@[x].id@ != self.images@[y].id@ by {
                        assert(s0[x].id@ != s0[y].id@);
                        if x == i as int {
                            assert(self.images@[y] == s0[y]);
                            assert(self.images@[x].id@ == s0[i as int].id@);
                        } else if y == i as int {
                            assert(self.images@[x] == s0[x]);
                            assert(self.images@[y].id@ == s0[i as int].id@);
                        } else {
                            assert(self.images@[x] == s0[x]);
                            assert(self.images@[y] == s0[y]);
                        }
                    }
                }
                return Ok(image_id);
            }
            i += 1;
        }
        proof {
            assert(!has_image(self.images@, image.id@)) by {
                if has_image(self.images@, image.id@) {
                    let k = image_idx(self.images@, image.id@);
                    assert(0 <= k < self.images@.len() && self.images@[k].id@ == image.id@);
                }
            }
        }
        self.images.push(image);
        Ok(image_id)
    }

    /// Looks an image up by id.
    #[verifier::loop_isolation(false)]
    pub fn get_image(&self, image_id: &str) -> (r: Option<PropertyImage>)
        requires
            self.wf(),
        ensures
            r == (if has_image(self.images@, image_id@) {
                Some(image_at(self.images@, image_id@))
            } else {
                None::<PropertyImage>
            }),
    {
        let key = image_id.to_owned();
        let mut i: usize = 0;
        while i < self.images.len()
            invariant
                i <= self.images.len(),
                key@ == image_id@,
                forall|j: int| 0 <= j < i as int ==> self.images@[j].id@ != image_id@,
            decreases self.images.len() - i,
        {
            if self.images[i].id == key {
                proof {
                    assert(has_image(self.images@, image_id@));
                    let k = image_idx(self.images@, image_id@);
                    assert(0 <= k < self.images@.len() && self.images@[k].id@ == image_id@);
                    assert(k == i as int);
                }
                return Some(self.images[i].clone());
            }
            i += 1;
        }
        proof {
            assert(!has_image(self.images@, image_id@)) by {
                if has_image(self.images@, image_id@) {
                    let k = image_idx(self.images@, image_id@);
                    assert(0 <= k < self.images@.len() && self.images@[k].id@ == image_id@);
                }
            }
        }
        None
    }

    /// The images attached to this property, in table order.
    #[verifier::loop_isolation(false)]
    pub fn get_images_by_property(&self, property_id: u64) -> (r: Vec<PropertyImage>)
        ensures
            r@ == self.images@.filter(|m: PropertyImage| m.property_id == property_id),
    {
        let ghost pred = |m: PropertyImage| m.property_id == property_id;
        let mut r: Vec<PropertyImage> = Vec::new();
        let mut i: usize = 0;
        proof {
            assert(self.images@.subrange(0, 0) =~= Seq::<PropertyImage>::empty());
            lemma_filter_empty(pred);
        }
        while i < self.images.len()
            invariant
                i <= self.images.len(),
                r@ == self.images@.subrange(0, i as int).filter(pred),
            decreases self.images.len() - i,
        {
            proof {
                assert(self.images@.subrange(0, i as int + 1) =~= self.images@.subrange(
                    0,
                    i as int,
                ).push(self.images@[i as int]));
                lemma_filter_push(self.images@.subrange(0, i as int), self.images@[i as int], pred);
            }
            if self.images[i].property_id == property_id {
                r.push(self.images[i].clone());
            }
            i += 1;
        }
        proof {
            assert(self.images@.subrange(0, self.images@.len() as int) =~= self.images@);
        }
        r
    }

    /// The images owned by this identity, in table order.
    #[verifier::loop_isolation(false)]
    pub fn get_images_by_owner(&self, owner: &Identity) -> (r: Vec<PropertyImage>)
        ensures
            r@ == self.images@.filter(|m: PropertyImage| m.owner == *owner),
    {
        let ghost pred = |m: PropertyImage| m.owner == *owner;
        let mut r: Vec<PropertyImage> = Vec::new();
        let mut i: usize = 0;
        proof {
            assert(self.images@.subrange(0, 0) =~= Seq::<PropertyImage>::empty());
            lemma_filter_empty(pred);
        }
        while i < self.images.len()
            invariant
                i <= self.images.len(),
                r@ == self.images@.subrange(0, i as int).filter(pred),
            decreases self.images.len() - i,
        {
            proof {
                assert(self.images@.subrange(0, i as int + 1) =~= self.images@.subrange(
                    0,
                    i as int,
                ).push(self.images@[i as int]));
                lemma_filter_push(self.images@.subrange(0, i as int), self.images@[i as int], pred);
            }
            if self.images[i].owner == *owner {
                r.push(self.images[i].clone());
            }
            i += 1;
        }
        proof {
            assert(self.images@.subrange(0, self.images@.len() as int) =~= self.images@);
        }
        r
    }

    /// Removes the image stored under this id.
    #[verifier::loop_isolation(false)]
    pub fn delete_image(&mut self, image_id: &str) -> (r: Result<(), LifecycleError>)
        requires
            old(self).wf(),
        ensures
            final(self).wf(),
            !has_image(old(self).images@, image_id@) ==> r == Err::<(), LifecycleError>(
                LifecycleError::NotFound,
            ) && *final(self) == *old(self),
            has_image(old(self).images@, image_id@) ==> r == Ok::<(), LifecycleError>(()) && final(self).images@ == old(self).images@.remove(image_idx(old(self).images@, image_id@)) && (
            *final(self) == (Storage { images: final(self).images, ..*old(self) })),
    {
        let key = image_id.to_owned();
        let mut i: usize = 0;
        while i < self.images.len()
            invariant
                i <= self.images.len(),
                *self == *old(self),
                key@ == image_id@,
                forall|j: int| 0 <= j < i as int ==> self.images@[j].id@ != image_id@,
            decreases self.images.len() - i,
        {
            if self.images[i].id == key {
                proof {
                    assert(has_image(self.images@, image_id@));
                    let k = image_idx(self.images@, image_id@);
                    assert(0 <= k < self.images@.len() && self.images@[k].id@ == image_id@);
                    assert(k == i as int);
                }
                self.images.remove(i);
                return Ok(());
            }
            i += 1;
        }
        proof {
            assert(!has_image(self.images@, image_id@)) by {
                if has_image(self.images@, image_id@) {
                    let k = image_idx(self.images@, image_id@);
                    assert(0 <= k < self.images@.len() && self.images@[k].id@ == image_id@);
                }
            }
        }
        Err(LifecycleError::NotFound)
    }

    /// Removes every image attached to this property.
    #[verifier::loop_isolation(false)]
    pub fn delete_images_by_property(&mut self, property_id: u64)
        requires
            old(self).wf(),
        ensures
            final(self).wf(),
            final(self).images@ == old(self).images@.filter(
                |m: PropertyImage| m.property_id != property_id,
            ),
            *final(self) == (Storage { images: final(self).images, ..*old(self) }),
    {
        let ghost pred = |m: PropertyImage| m.property_id != property_id;
        let mut kept: Vec<PropertyImage> = Vec::new();
        let mut i: usize = 0;
        proof {
            assert(self.images@.subrange(0, 0) =~= Seq::<PropertyImage>::empty());
            lemma_filter_empty(pred);
        }
        while i < self.images.len()
            invariant
                i <= self.images.len(),
                *self == *old(self),
                kept@ == self.images@.subrange(0, i as int).filter(pred),
            decreases self.images.len() - i,
        {
            proof {
                assert(self.images@.subrange(0, i as int + 1) =~= self.images@.subrange(
                    0,
                    i as int,
                ).push(self.images@[i as int]));
                lemma_filter_push(self.images@.subrange(0, i as int), self.images@[i as int], pred);
            }
            if self.images[i].property_id != property_id {
                kept.push(self.images[i].clone());
            }
            i += 1;
        }
        proof {
            assert(self.images@.subrange(0, self.images@.len() as int) =~= self.images@);
        }
        self.images = kept;
        proof {
            lemma_filter_unique_images(old(self).images@, pred);
        }
    }
}

/// Filtering a table whose image ids are distinct leaves the ids distinct,
/// and every kept record still occurs in the source table.
proof fn lemma_filter_unique_images(s: Seq<PropertyImage>, pred: spec_fn(PropertyImage) -> bool)
    requires
        images_unique(s),
    ensures
        images_unique(s.filter(pred)),
        forall|x: int|
            0 <= x < s.filter(pred).len() ==> exists|j: int|
                0 <= j < s.len() && s[j] == #[trigger] s.filter(pred)[x],
    decreases s.len(),
{
    reveal(Seq::filter);
    if s.len() > 0 {
        let s0 = s.drop_last();
        assert(images_unique(s0)) by {
            assert forall|x: int, y: int|
                0 <= x < s0.len() && 0 <= y < s0.len() && x != y implies s0[x].id@
                != s0[y].id@ by {
                assert(s0[x] == s[x]);
                assert(s0[y] == s[y]);
            }
        }
        lemma_filter_unique_images(s0, pred);
        let f0 = s0.filter(pred);
        let f = s.filter(pred);
        if pred(s.last()) {
            assert(f == f0.push(s.last()));
            assert forall|x: int, y: int|
                0 <= x < f.len() && 0 <= y < f.len() && x != y implies f[x].id@ != f[y].id@ by {
                if x < f0.len() && y < f0.len() {
                    assert(f[x] == f0[x]);
                    assert(f[y] == f0[y]);
                } else if x < f0.len() {
                    assert(f[y] == s.last());
                    assert(f[x] == f0[x]);
                    let j = choose|j: int| 0 <= j < s0.len() && s0[j] == f0[x];
                    assert(0 <= j < s0.len() && s0[j] == f0[x]);
                    assert(s[j] == s0[j]);
                    assert(s[j].id@ != s[s.len() - 1].id@);
                } else {
                    assert(f[x] == s.last());
                    assert(f[y] == f0[y]);
                    let j = choose|j: int| 0 <= j < s0.len() && s0[j] == f0[y];
                    assert(0 <= j < s0.len() && s0[j] == f0[y]);
                    assert(s[j] == s0[j]);
                    assert(s[j].id@ != s[s.len() - 1].id@);
                }
            }
            assert forall|x: int| 0 <= x < f.len() implies exists|j: int|
                0 <= j < s.len() && s[j] == #[trigger] f[x] by {
                if x < f0.len() {
                    assert(f[x] == f0[x]);
                    let j = choose|j: int| 0 <= j < s0.len() && s0[j] == f0[x];
                    assert(0 <= j < s0.len() && s0[j] == f0[x]);
                    assert(s[j] == f[x]);
                } else {
                    assert(f[x] == s.last());
                    assert(s[s.len() - 1] == f[x]);
                }
            }
        } else {
            assert(f == f0);
            assert forall|x: int| 0 <= x < f.len() implies exists|j: int|
                0 <= j < s.len() && s[j] == #[trigger] f[x] by {
                let j = choose|j: int| 0 <= j < s0.len() && s0[j] == f0[x];
                assert(0 <= j < s0.len() && s0[j] == f0[x]);
                assert(s[j] == f[x]);
            }
        }
    }
}

} // verus!
