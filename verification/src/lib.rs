//! Core of a digital-collectible launch platform: creation, phased minting
//! with access control and payment, metadata updates, and destruction of
//! items.
//!
//! The platform's external collaborators (the asset issuance service, the
//! value-transfer service, and the persistent keyed record store) stay
//! outside this crate: every operation here is a deterministic step of the
//! authorization and supply-accounting state machine, taking plain values in
//! and handing the requested external actions back to the caller.

pub mod access;
pub mod collection;
pub mod errors;
pub mod item;
pub mod laws;
pub mod mint;
