//! Value objects of the key-exchange core: curve points, requests, results,
//! and the error taxonomy.

use vstd::prelude::*;
use crate::bignum::bigint_of_u64;
use crate::bignum::bigint_eq;
use crate::bignum::bigint_from_u64;

verus! {

/// Every way an operation of this crate can fail. Each failure is detected at
/// the point of occurrence and returned to the immediate caller; nothing is
/// retried or masked.
#[derive(Clone, Copy, Debug, PartialEq, Eq, Structural)]
pub enum CryptoError {
    /// The entropy source could not produce key material.
    RandomnessUnavailable,
    /// The peer supplied an off-curve or identity point.
    InvalidPublicKey,
    /// The Diffie-Hellman combination produced the group identity.
    WeakSharedSecret,
    /// The cipher key was not exactly 32 bytes.
    InvalidKeyLength,
    /// The cipher input was not exactly one 16-byte block.
    InvalidBlockLength,
}

/// A curve point as an (x, y) pair of big integers. Construction does not
/// prove the point lies on the curve: the on-curve check belongs to the
/// outside curve library, while the identity check below is this crate's.
#[derive(Clone)]
pub struct Point {
    pub x: num_bigint::BigInt,
    pub y: num_bigint::BigInt,
}

/// The group identity of the Edwards curve is the point (0, 1): combining a
/// key with it, or producing it, yields a degenerate shared secret.
pub open spec fn is_identity_point(p: Point) -> bool {
    p.x == bigint_of_u64(0) && p.y == bigint_of_u64(1)
}

impl Point {
    pub fn new(x: num_bigint::BigInt, y: num_bigint::BigInt) -> (r: Point)
        ensures
            r.x == x,
            r.y == y,
    {
        Point { x, y }
    }

    /// Decides whether this point is the group identity (0, 1).
    pub fn is_identity(&self) -> (r: bool)
        ensures
            r == is_identity_point(*self),
    {
        let zero = bigint_from_u64(0);
        let one = bigint_from_u64(1);
        bigint_eq(&self.x, &zero) && bigint_eq(&self.y, &one)
    }
}

/// Carries a peer's public coordinates into the key-pair operation.
pub struct GenerateKeyPairRequest {
    pub x: num_bigint::BigInt,
    pub y: num_bigint::BigInt,
}

/// Carries a caller-held private key and a peer's public point into the
/// secret-key operation.
pub struct GenerateSecretKeyRequest {
    pub public_key: Point,
    pub private_key: num_bigint::BigInt,
}

/// A freshly generated public point together with the symmetric key derived
/// from the peer's coordinates.
pub struct GenerateKeyPairResult {
    pub public_key: Point,
    pub secret_key: Vec<u8>,
}

/// The symmetric key derived from a caller-supplied private key and peer
/// point.
pub struct GenerateSecretKeyResult {
    pub secret_key: Vec<u8>,
}

impl GenerateKeyPairResult {
    pub fn from(public_key: Point, secret_key: Vec<u8>) -> (r: Self)
        ensures
            r.public_key == public_key,
            r.secret_key == secret_key,
    {
        Self { public_key, secret_key }
    }
}

impl GenerateSecretKeyResult {
    pub fn from(secret_key: Vec<u8>) -> (r: Self)
        ensures
            r.secret_key == secret_key,
    {
        Self { secret_key }
    }
}

} // verus!
