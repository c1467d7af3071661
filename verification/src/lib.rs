//! Rental-marketplace lifecycle engine.
//!
//! Parties register as landlord or tenant, list properties, negotiate a
//! rental agreement, and move a security deposit through an escrow process;
//! a non-transferable receipt record is minted as proof of an active rental.
//! The heart of the crate is the dual lifecycle engine: the escrow-account
//! state machine coupled to the rental-agreement state machine, each one
//! authorized by caller identity and each producing an append-only audit trail.
//!
//! The engine is pure state-transition logic: the caller identity and the
//! current time enter every operation as explicit arguments, and all records
//! live in an explicit [`storage::Storage`] value that the host passes in by
//! mutable reference. Host concerns (resolving the caller, reading the
//! clock, persistence, transport encoding) stay outside the crate.

pub mod auth;
pub mod errors;
pub mod escrow;
pub mod escrow_api;
pub mod image;
pub mod nft;
pub mod nft_api;
pub mod nft_minter;
pub mod property;
pub mod property_api;
pub mod rental;
pub mod rental_api;
pub mod rental_manager;
pub mod storage;
pub mod user;
pub mod user_api;

pub use auth::Identity;
pub use errors::LifecycleError;
pub use escrow::{EscrowAccount, EscrowEventType, EscrowStatus, EscrowTimelineEvent};
pub use image::PropertyImage;
pub use nft::{NFTAttribute, NFTMetadata};
pub use property::{Property, PropertyType};
pub use rental::{RentalAgreement, RentalStatus};
pub use user::{Role, User};
