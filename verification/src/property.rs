//! Property listings.
//!
//! A listing is a plain keyed record owned by a landlord; the lifecycle
//! engine only ever reads its amounts and toggles its availability flag.

use vstd::prelude::*;

use crate::auth::Identity;

verus! {

/// The closed set of listing categories.
#[derive(Clone, Copy, PartialEq, Eq, Structural, Debug)]
pub enum PropertyType {
    Apartment,
    House,
    Villa,
    Studio,
    Condo,
    Townhouse,
}

/// One property listing.
#[derive(PartialEq, Eq, Debug)]
pub struct Property {
    pub id: u64,
    pub owner: Identity,
    pub title: String,
    pub description: String,
    pub address: String,
    pub rent_amount: u64,
    pub deposit_amount: u64,
    pub property_type: PropertyType,
    pub bedrooms: u32,
    pub bathrooms: u32,
    pub area_sqft: u32,
    pub images: Vec<String>,
    pub amenities: Vec<String>,
    pub is_available: bool,
    pub created_at: u64,
    pub updated_at: u64,
}

/// Whether two listings agree on every field, comparing the image and
/// amenity collections by their contents. This is how a copied listing
/// relates to its original.
pub open spec fn prop_like(a: Property, b: Property) -> bool {
    &&& b == (Property { images: b.images, amenities: b.amenities, ..a })
    &&& b.images@ == a.images@
    &&& b.amenities@ == a.amenities@
}

impl Clone for Property {
    fn clone(&self) -> (res: Self)
        ensures
            prop_like(*self, res),
    {
        let images = self.images.clone();
        let amenities = self.amenities.clone();
        proof {
            assert(images@ =~= self.images@);
            assert(amenities@ =~= self.amenities@);
        }
        Property {
            id: self.id,
            owner: self.owner,
            title: self.title.clone(),
            description: self.description.clone(),
            address: self.address.clone(),
            rent_amount: self.rent_amount,
            deposit_amount: self.deposit_amount,
            property_type: self.property_type,
            bedrooms: self.bedrooms,
            bathrooms: self.bathrooms,
            area_sqft: self.area_sqft,
            images,
            amenities,
            is_available: self.is_available,
            created_at: self.created_at,
            updated_at: self.updated_at,
        }
    }
}

impl Property {
    /// A fresh listing, available from the start.
    pub fn new(
        id: u64,
        owner: Identity,
        title: String,
        description: String,
        address: String,
        rent_amount: u64,
        deposit_amount: u64,
        property_type: PropertyType,
        bedrooms: u32,
        bathrooms: u32,
        area_sqft: u32,
        images: Vec<String>,
        amenities: Vec<String>,
        now: u64,
    ) -> (r: Property)
        ensures
            r == (Property {
                id,
                owner,
                title,
                description,
                address,
                rent_amount,
                deposit_amount,
                property_type,
                bedrooms,
                bathrooms,
                area_sqft,
                images,
                amenities,
                is_available: true,
                created_at: now,
                updated_at: now,
            }),
    {
        Property {
            id,
            owner,
            title,
            description,
            address,
            rent_amount,
            deposit_amount,
            property_type,
            bedrooms,
            bathrooms,
            area_sqft,
            images,
            amenities,
            is_available: true,
            created_at: now,
            updated_at: now,
        }
    }

    /// Flips the availability flag.
    pub fn update_availability(&mut self, available: bool, now: u64)
        ensures
            *final(self) == (Property { is_available: available, updated_at: now, ..*old(self) }),
    {
        self.is_available = available;
        self.updated_at = now;
    }
}

} // verus!
