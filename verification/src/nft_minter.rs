//! Assembly of receipt-record metadata at confirmation time.

use vstd::prelude::*;
use vstd::string::StringExecFns;
use vstd::utf8::encode_utf8;

use crate::auth::Identity;
use crate::nft::{dec_str, u64_to_string, NFTMetadata};

verus! {

/// Images above this many encoded bytes are not embedded in a receipt
/// record; a short placeholder takes their place.
pub const MAX_NFT_IMAGE_BYTES: usize = 51200;

/// The image actually embedded for a listing image: the image itself, or
/// the placeholder if its encoding is too large.
pub open spec fn safe_image_of(property_image: Seq<char>, property_id: u64) -> Seq<char> {
    if (encode_utf8(property_image).len() as usize) > MAX_NFT_IMAGE_BYTES {
        "Property ID: "@ + dec_str(property_id as nat) + " - Image too large for NFT storage"@
    } else {
        property_image
    }
}

/// Everything a freshly minted receipt record must hold, given the listing
/// fields it is derived from.
pub open spec fn minted_nft_matches(
    nft: NFTMetadata,
    id: int,
    owner: Identity,
    property_id: u64,
    rental_agreement_id: u64,
    title: Seq<char>,
    address: Seq<char>,
    image: Seq<char>,
    rent_amount: u64,
    start_date: u64,
    end_date: u64,
    now: u64,
) -> bool {
    &&& nft.id == id
    &&& nft.owner == owner
    &&& nft.property_id == property_id
    &&& nft.rental_agreement_id == rental_agreement_id
    &&& nft.name@ == "Rental Agreement NFT - "@ + title
    &&& nft.description@ == "This NFT represents a rental agreement for the property at "@
        + address
    &&& nft.image@ == safe_image_of(image, property_id)
    &&& nft.created_at == now
    &&& nft.attributes@.len() == 6
    &&& nft.attributes@[0].trait_type@ == "Property ID"@
    &&& nft.attributes@[0].value@ == dec_str(property_id as nat)
    &&& nft.attributes@[1].trait_type@ == "Rental Agreement ID"@
    &&& nft.attributes@[1].value@ == dec_str(rental_agreement_id as nat)
    &&& nft.attributes@[2].trait_type@ == "Property Address"@
    &&& nft.attributes@[2].value@ == address
    &&& nft.attributes@[3].trait_type@ == "Monthly Rent"@
    &&& nft.attributes@[3].value@ == dec_str(rent_amount as nat)
    &&& nft.attributes@[4].trait_type@ == "Start Date"@
    &&& nft.attributes@[4].value@ == dec_str(start_date as nat)
    &&& nft.attributes@[5].trait_type@ == "End Date"@
    &&& nft.attributes@[5].value@ == dec_str(end_date as nat)
}

/// Builds the metadata of a receipt record for one rental, swapping an
/// oversized listing image for a placeholder.
pub fn create_rental_nft(
    nft_id: u64,
    tenant: Identity,
    property_id: u64,
    rental_agreement_id: u64,
    property_title: String,
    property_address: String,
    property_image: String,
    rent_amount: u64,
    start_date: u64,
    end_date: u64,
    now: u64,
) -> (r: NFTMetadata)
    ensures
        minted_nft_matches(
            r,
            nft_id as int,
            tenant,
            property_id,
            rental_agreement_id,
            property_title@,
            property_address@,
            property_image@,
            rent_amount,
            start_date,
            end_date,
            now,
        ),
{
    let safe_image = if property_image.as_str().len() > MAX_NFT_IMAGE_BYTES {
        "Property ID: ".to_owned().concat(u64_to_string(property_id).as_str()).concat(
            " - Image too large for NFT storage",
        )
    } else {
        property_image
    };
    NFTMetadata::new(
        nft_id,
        tenant,
        property_id,
        rental_agreement_id,
        property_title,
        property_address,
        safe_image,
        rent_amount,
        start_date,
        end_date,
        now,
    )
}

} // verus!
