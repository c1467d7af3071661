//! Read access to receipt records.

use vstd::prelude::*;

use crate::auth::{is_anonymous, Identity};
use crate::errors::LifecycleError;
use crate::nft::{nft_like, NFTMetadata};
use crate::storage::{has_nft, nft_at, nfts_like, Storage};

verus! {

/// The caller's receipt records.
pub fn get_my_nfts(store: &Storage, caller: Identity) -> (r: Result<
    Vec<NFTMetadata>,
    LifecycleError,
>)
    ensures
        caller.is_anon() ==> r == Err::<Vec<NFTMetadata>, LifecycleError>(
            LifecycleError::Unauthenticated,
        ),
        !caller.is_anon() ==> (r matches Ok(v) && nfts_like(
            store.nfts@.filter(|n: NFTMetadata| n.owner == caller),
            v@,
        )),
{
    if is_anonymous(caller) {
        return Err(LifecycleError::Unauthenticated);
    }
    Ok(store.get_nfts_by_owner(&caller))
}

/// One receipt record, visible only to its owner.
pub fn get_nft_by_id(store: &Storage, caller: Identity, nft_id: u64) -> (r: Result<
    NFTMetadata,
    LifecycleError,
>)
    requires
        store.wf(),
    ensures
        caller.is_anon() ==> r == Err::<NFTMetadata, LifecycleError>(
            LifecycleError::Unauthenticated,
        ),
        !caller.is_anon() && !has_nft(store.nfts@, nft_id) ==> r == Err::<
            NFTMetadata,
            LifecycleError,
        >(LifecycleError::NotFound),
        !caller.is_anon() && has_nft(store.nfts@, nft_id) && nft_at(store.nfts@, nft_id).owner
            != caller ==> r == Err::<NFTMetadata, LifecycleError>(LifecycleError::Forbidden),
        !caller.is_anon() && has_nft(store.nfts@, nft_id) && nft_at(store.nfts@, nft_id).owner
            == caller ==> (r matches Ok(n) && nft_like(nft_at(store.nfts@, nft_id), n)),
{
    if is_anonymous(caller) {
        return Err(LifecycleError::Unauthenticated);
    }
    let nft = match store.get_nft(nft_id) {
        Some(n) => n,
        None => {
            return Err(LifecycleError::NotFound);
        },
    };
    if nft.owner != caller {
        return Err(LifecycleError::Forbidden);
    }
    Ok(nft)
}

/// The metadata of one receipt record, readable by anyone.
pub fn get_nft_metadata(store: &Storage, nft_id: u64) -> (r: Result<NFTMetadata, LifecycleError>)
    requires
        store.wf(),
    ensures
        !has_nft(store.nfts@, nft_id) ==> r == Err::<NFTMetadata, LifecycleError>(
            LifecycleError::NotFound,
        ),
        has_nft(store.nfts@, nft_id) ==> (r matches Ok(n) && nft_like(
            nft_at(store.nfts@, nft_id),
            n,
        )),
{
    match store.get_nft(nft_id) {
        Some(n) => Ok(n),
        None => Err(LifecycleError::NotFound),
    }
}

} // verus!
