//! A verified core for an HTTP gateway over the Solana blockchain SDK.
//!
//! The library validates incoming requests (non-empty fields, key-encoding
//! well-formedness), delegates key generation, SPL-token instruction
//! construction and Ed25519 signing/verification to the blockchain and
//! cryptography crates behind trusted wrappers, and assembles the wire
//! responses. The HTTP routing itself lives outside the library.

pub mod codec;
pub mod crypto;
pub mod errors;
pub mod handlers;
pub mod models;
pub mod pubkey;
pub mod service;
pub mod token;
