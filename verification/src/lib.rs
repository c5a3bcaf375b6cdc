//! An identity and account-linking library: local accounts registered by
//! password hash, each linkable to third-party OAuth2 providers through an
//! authorization-code flow guarded by single-use state nonces.
//!
//! The store model, the nonce generator, the linking orchestrator and the
//! payload parsing are verified; network transport and the real key-value
//! backend live outside the library and hand it plain values.

pub mod accounts;
pub mod errors;
pub mod hashing;
pub mod json;
pub mod kv;
pub mod linking;
pub mod nonce;
pub mod provider;
pub mod store;
