//! Owned key and ciphertext types, and the KEM and signature capabilities
//! over them, with every length rule proved.
pub mod adapter;
pub mod engine;
pub mod error;
pub mod kem;
mod memory;
pub mod mock;
pub mod selftest;
pub mod sig;

pub use error::OqsError;
