//! Internal rental-core helpers: minting the receipt record for a
//! confirmed agreement, and administrative activation.

use vstd::prelude::*;

use crate::errors::LifecycleError;
use crate::nft_minter::{create_rental_nft, minted_nft_matches};
use crate::rental::{RentalAgreement, RentalStatus};
use crate::storage::{
    has_nft, has_property, has_rental, nft_idx, property_at, rental_at, rental_idx, Storage,
};

verus! {

/// Mints the receipt record for a rental: a fresh id, derived from the
/// rental's listing, owned by the tenant. Fails only when the listing is
/// gone.
pub fn mint_rental_nft(store: &mut Storage, rental: &RentalAgreement, now: u64) -> (r: Result<
    u64,
    LifecycleError,
>)
    requires
        old(store).wf(),
        old(store).nft_counter < u64::MAX,
    ensures
        final(store).wf(),
        !has_property(old(store).properties@, rental.property_id) ==> r == Err::<u64,
            LifecycleError,
        >(LifecycleError::NotFound) && *final(store) == *old(store),
        has_property(old(store).properties@, rental.property_id) ==> ({
            let p = property_at(old(store).properties@, rental.property_id);
            let image = if p.images@.len() > 0 {
                p.images@[0]@
            } else {
                Seq::<char>::empty()
            };
            &&& r == Ok::<u64, LifecycleError>((old(store).nft_counter + 1) as u64)
            &&& final(store).nfts@ == old(store).nfts@.push(final(store).nfts@.last())
            &&& minted_nft_matches(
                final(store).nfts@.last(),
                old(store).nft_counter + 1,
                rental.tenant,
                rental.property_id,
                rental.id,
                p.title@,
                p.address@,
                image,
                rental.rent_amount,
                rental.start_date,
                rental.end_date,
                now,
            )
            &&& final(store).nft_counter == old(store).nft_counter + 1
            &&& (*final(store) == (Storage {
                nfts: final(store).nfts,
                nft_counter: final(store).nft_counter,
                ..*old(store)
            }))
        }),
{
    let property = match store.get_property(rental.property_id) {
        Some(p) => p,
        None => {
            return Err(LifecycleError::NotFound);
        },
    };
    let nft_id = store.get_next_nft_id();
    let image = if property.images.len() > 0 {
        property.images[0].clone()
    } else {
        String::new()
    };
    let nft = create_rental_nft(
        nft_id,
        rental.tenant,
        rental.property_id,
        rental.id,
        property.title,
        property.address,
        image,
        rental.rent_amount,
        rental.start_date,
        rental.end_date,
        now,
    );
    proof {
        assert(!has_nft(store.nfts@, nft_id)) by {
            if has_nft(store.nfts@, nft_id) {
                let k = nft_idx(store.nfts@, nft_id);
                assert(0 <= k < store.nfts@.len() && store.nfts@[k].id == nft_id);
            }
        }
    }
    match store.create_nft(nft) {
        Ok(_) => Ok(nft_id),
        Err(e) => Err(e),
    }
}

/// Administrative activation of a confirmed agreement: `Confirmed` to
/// `Active`.
pub fn activate_rental(store: &mut Storage, now: u64, rental_id: u64) -> (r: Result<
    (),
    LifecycleError,
>)
    requires
        old(store).wf(),
    ensures
        final(store).wf(),
        !has_rental(old(store).rentals@, rental_id) ==> r == Err::<(), LifecycleError>(
            LifecycleError::NotFound,
        ) && *final(store) == *old(store),
        has_rental(old(store).rentals@, rental_id) && rental_at(old(store).rentals@, rental_id).status
            != RentalStatus::Confirmed ==> r == Err::<(), LifecycleError>(
            LifecycleError::InvalidState,
        ) && *final(store) == *old(store),
        has_rental(old(store).rentals@, rental_id) && rental_at(old(store).rentals@, rental_id).status
            == RentalStatus::Confirmed ==> ({
            let r0 = rental_at(old(store).rentals@, rental_id);
            let r1 = RentalAgreement { status: RentalStatus::Active, updated_at: now, ..r0 };
            &&& r == Ok::<(), LifecycleError>(())
            &&& final(store).rentals@ == old(store).rentals@.update(
                rental_idx(old(store).rentals@, rental_id),
                r1,
            )
            &&& (*final(store) == (Storage { rentals: final(store).rentals, ..*old(store) }))
        }),
{
    let mut rental = match store.get_rental(rental_id) {
        Some(x) => x,
        None => {
            return Err(LifecycleError::NotFound);
        },
    };
    if rental.status != RentalStatus::Confirmed {
        return Err(LifecycleError::InvalidState);
    }
    rental.activate(now);
    let upd = store.update_rental(rental);
    proof {
        assert(upd is Ok);
    }
    Ok(())
}

} // verus!
