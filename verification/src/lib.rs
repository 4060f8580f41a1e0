//! Verified core of a signed-oracle ledger module.
//!
//! The crate holds the logic that decides every state transition of the
//! module: classification of key-type names, signature verification of
//! oracle payloads, admin-gated rotation of the verification key, the
//! single-slot oracle datum, and an append-only ledger of pre-validated
//! transactions. Host concerns (storage, transport, event encoding) stay
//! outside; every function here is a deterministic transition on an
//! explicit state value.

pub mod contract;
pub mod crypto;
pub mod errors;
pub mod keys;
pub mod state;
