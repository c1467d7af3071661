//! Receipt records ("NFTs"): non-transferable proof of an active rental.
//!
//! A receipt is minted when an agreement is confirmed. It carries a
//! human-readable name and description assembled from the listing, plus a
//! fixed set of display attributes rendered as decimal strings.

use vstd::prelude::*;
use vstd::string::StringExecFns;

use crate::auth::Identity;

verus! {

/// One display attribute of a receipt record.
#[derive(PartialEq, Eq, Debug)]
pub struct NFTAttribute {
    pub trait_type: String,
    pub value: String,
}

impl Clone for NFTAttribute {
    fn clone(&self) -> (res: Self)
        ensures
            res == *self,
    {
        NFTAttribute { trait_type: self.trait_type.clone(), value: self.value.clone() }
    }
}

/// The metadata of one receipt record.
#[derive(PartialEq, Eq, Debug)]
pub struct NFTMetadata {
    pub id: u64,
    pub owner: Identity,
    pub property_id: u64,
    pub rental_agreement_id: u64,
    pub name: String,
    pub description: String,
    pub image: String,
    pub attributes: Vec<NFTAttribute>,
    pub created_at: u64,
}

/// Whether two receipt records agree on every field, comparing the
/// attribute collection by its contents. This is how a copied record
/// relates to its original.
pub open spec fn nft_like(a: NFTMetadata, b: NFTMetadata) -> bool {
    &&& b == (NFTMetadata { attributes: b.attributes, ..a })
    &&& b.attributes@ == a.attributes@
}

impl Clone for NFTMetadata {
    fn clone(&self) -> (res: Self)
        ensures
            nft_like(*self, res),
    {
        let attributes = self.attributes.clone();
        proof {
            assert(attributes@ =~= self.attributes@);
        }
        NFTMetadata {
            id: self.id,
            owner: self.owner,
            property_id: self.property_id,
            rental_agreement_id: self.rental_agreement_id,
            name: self.name.clone(),
            description: self.description.clone(),
            image: self.image.clone(),
            attributes,
            created_at: self.created_at,
        }
    }
}

/// The character for one decimal digit.
pub open spec fn dec_digit(d: nat) -> char {
    if d == 0 {
        '0'
    } else if d == 1 {
        '1'
    } else if d == 2 {
        '2'
    } else if d == 3 {
        '3'
    } else if d == 4 {
        '4'
    } else if d == 5 {
        '5'
    } else if d == 6 {
        '6'
    } else if d == 7 {
        '7'
    } else if d == 8 {
        '8'
    } else {
        '9'
    }
}

/// The decimal rendering of a number, most significant digit first.
pub open spec fn dec_str(v: nat) -> Seq<char>
    decreases v,
{
    if v < 10 {
        seq![dec_digit(v)]
    } else {
        dec_str(v / 10).push(dec_digit(v % 10))
    }
}

/// The one-character string for a decimal digit.
fn digit_str(d: u64) -> (r: String)
    requires
        d < 10,
    ensures
        r@ == seq![dec_digit(d as nat)],
{
    if d == 0 {
        proof {
            reveal_strlit("0");
            assert("0"@ =~= seq![dec_digit(0)]);
        }
        "0".to_owned()
    } else if d == 1 {
        proof {
            reveal_strlit("1");
            assert("1"@ =~= seq![dec_digit(1)]);
        }
        "1".to_owned()
    } else if d == 2 {
        proof {
            reveal_strlit("2");
            assert("2"@ =~= seq![dec_digit(2)]);
        }
        "2".to_owned()
    } else if d == 3 {
        proof {
            reveal_strlit("3");
            assert("3"@ =~= seq![dec_digit(3)]);
        }
        "3".to_owned()
    } else if d == 4 {
        proof {
            reveal_strlit("4");
            assert("4"@ =~= seq![dec_digit(4)]);
        }
        "4".to_owned()
    } else if d == 5 {
        proof {
            reveal_strlit("5");
            assert("5"@ =~= seq![dec_digit(5)]);
        }
        "5".to_owned()
    } else if d == 6 {
        proof {
            reveal_strlit("6");
            assert("6"@ =~= seq![dec_digit(6)]);
        }
        "6".to_owned()
    } else if d == 7 {
        proof {
            reveal_strlit("7");
            assert("7"@ =~= seq![dec_digit(7)]);
        }
        "7".to_owned()
    } else if d == 8 {
        proof {
            reveal_strlit("8");
            assert("8"@ =~= seq![dec_digit(8)]);
        }
        "8".to_owned()
    } else {
        proof {
            reveal_strlit("9");
            assert("9"@ =~= seq![dec_digit(9)]);
        }
        "9".to_owned()
    }
}

/// The decimal rendering of a value: its digits, most significant first,
/// with no sign, padding or separators.
pub(crate) fn u64_to_string(v: u64) -> (r: String)
    ensures
        r@ == dec_str(v as nat),
    decreases v,
{
    if v < 10 {
        digit_str(v)
    } else {
        let prefix = u64_to_string(v / 10);
        let r = prefix.concat(digit_str(v % 10).as_str());
        proof {
            assert(dec_str((v / 10) as nat) + seq![dec_digit((v % 10) as nat)] =~= dec_str(
                (v / 10) as nat,
            ).push(dec_digit((v % 10) as nat)));
            assert((v as nat) / 10 == (v / 10) as nat);
            assert((v as nat) % 10 == (v % 10) as nat);
        }
        r
    }
}

impl NFTMetadata {
    /// Assembles the metadata of a fresh receipt record for a rental.
    pub fn new(
        id: u64,
        owner: Identity,
        property_id: u64,
        rental_agreement_id: u64,
        property_title: String,
        property_address: String,
        property_image: String,
        rent_amount: u64,
        start_date: u64,
        end_date: u64,
        now: u64,
    ) -> (r: NFTMetadata)
        ensures
            r.id == id,
            r.owner == owner,
            r.property_id == property_id,
            r.rental_agreement_id == rental_agreement_id,
            r.name@ == "Rental Agreement NFT - "@ + property_title@,
            r.description@ == "This NFT represents a rental agreement for the property at "@
                + property_address@,
            r.image == property_image,
            r.created_at == now,
            r.attributes@.len() == 6,
            r.attributes@[0].trait_type@ == "Property ID"@,
            r.attributes@[0].value@ == dec_str(property_id as nat),
            r.attributes@[1].trait_type@ == "Rental Agreement ID"@,
            r.attributes@[1].value@ == dec_str(rental_agreement_id as nat),
            r.attributes@[2].trait_type@ == "Property Address"@,
            r.attributes@[2].value@ == property_address@,
            r.attributes@[3].trait_type@ == "Monthly Rent"@,
            r.attributes@[3].value@ == dec_str(rent_amount as nat),
            r.attributes@[4].trait_type@ == "Start Date"@,
            r.attributes@[4].value@ == dec_str(start_date as nat),
            r.attributes@[5].trait_type@ == "End Date"@,
            r.attributes@[5].value@ == dec_str(end_date as nat),
    {
        let name = "Rental Agreement NFT - ".to_owned().concat(property_title.as_str());
        let description = "This NFT represents a rental agreement for the property at "
            .to_owned()
            .concat(property_address.as_str());
        let mut attributes: Vec<NFTAttribute> = Vec::new();
        attributes.push(
            NFTAttribute { trait_type: "Property ID".to_owned(), value: u64_to_string(property_id) },
        );
        attributes.push(
            NFTAttribute {
                trait_type: "Rental Agreement ID".to_owned(),
                value: u64_to_string(rental_agreement_id),
            },
        );
        attributes.push(
            NFTAttribute { trait_type: "Property Address".to_owned(), value: property_address },
        );
        attributes.push(
            NFTAttribute { trait_type: "Monthly Rent".to_owned(), value: u64_to_string(rent_amount) },
        );
        attributes.push(
            NFTAttribute { trait_type: "Start Date".to_owned(), value: u64_to_string(start_date) },
        );
        attributes.push(
            NFTAttribute { trait_type: "End Date".to_owned(), value: u64_to_string(end_date) },
        );
        NFTMetadata {
            id,
            owner,
            property_id,
            rental_agreement_id,
            name,
            description,
            image: property_image,
            attributes,
            created_at: now,
        }
    }
}

} // verus!
