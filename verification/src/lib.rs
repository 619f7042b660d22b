//! Elliptic-curve key-exchange core: request/result models, shared-secret
//! screening decisions, random key material, and a 256-bit block-cipher
//! adapter. The curve group operations themselves are supplied by an outside
//! collaborator; this crate holds and verifies everything around them.

pub mod bignum;
pub mod cipher;
pub mod exchange;
pub mod models;
pub mod random;
