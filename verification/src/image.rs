//! Stored listing images.
//!
//! An image is a plain keyed record: base64 payload, content type and
//! ownership, keyed by a caller-chosen string id.

use vstd::prelude::*;

use crate::auth::Identity;

verus! {

/// One stored image of a property listing.
#[derive(PartialEq, Eq, Debug)]
pub struct PropertyImage {
    pub id: String,
    pub property_id: u64,
    pub owner: Identity,
    pub data: String,
    pub content_type: String,
    pub size_bytes: u64,
    pub created_at: u64,
}

impl Clone for PropertyImage {
    fn clone(&self) -> (res: Self)
        ensures
            res == *self,
    {
        PropertyImage {
            id: self.id.clone(),
            property_id: self.property_id,
            owner: self.owner,
            data: self.data.clone(),
            content_type: self.content_type.clone(),
            size_bytes: self.size_bytes,
            created_at: self.created_at,
        }
    }
}

impl PropertyImage {
    /// A fresh image record.
    pub fn new(
        id: String,
        property_id: u64,
        owner: Identity,
        data: String,
        content_type: String,
        size_bytes: u64,
        now: u64,
    ) -> (r: PropertyImage)
        ensures
            r == (PropertyImage {
                id,
                property_id,
                owner,
                data,
                content_type,
                size_bytes,
                created_at: now,
            }),
    {
        PropertyImage { id, property_id, owner, data, content_type, size_bytes, created_at: now }
    }
}

} // verus!
