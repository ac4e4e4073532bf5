//! Key custody and signing core of a validator-side signing service: an
//! in-memory registry of consensus and proxy keys, the delegation
//! certificates that bind a proxy key to a consensus key, and the signing
//! and lookup operations built on top. Contracts state exactly which keys
//! answer which lookups and that every signature produced verifies — and,
//! for BLS, is the only accepted one — under the signer's own public key.

pub mod bytes;
pub mod crypto;
pub mod delegation;
pub mod keys;
pub mod manager;
pub mod registry;
pub mod roots;
pub mod signer;
