//! A write-once registry of employee onboarding records and document proofs.
//!
//! Records live in a key-value store addressed by a namespace and a 32-byte
//! hash. Each record is created once, by the first operation that claims its
//! address, and is never changed afterwards.

pub mod address;
pub mod error;
pub mod authority;
pub mod records;
pub mod store;
pub mod registry;
pub mod laws;
pub mod program_address;
