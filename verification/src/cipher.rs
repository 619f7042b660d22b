//! Adapter around the 256-bit block cipher: single-block encrypt and decrypt
//! under a 32-byte key, with exact length enforcement. Encrypt and decrypt
//! are the cipher's forward and inverse permutations — distinct primitive
//! calls whose round trip restores the original block.

use vstd::prelude::*;
use crate::models::CryptoError;

verus! {

/// `aes::Aes256` holds an expanded 256-bit key schedule; this crate reads it
/// only through the trusted calls below.
#[verifier::external_type_specification]
#[verifier::external_body]
pub struct ExAes256(aes::Aes256);

/// The key a cipher value was initialized with.
pub uninterp spec fn cipher_key(c: aes::Aes256) -> Seq<u8>;

/// The forward permutation of the cipher on one block under one key.
pub uninterp spec fn aes_enc(key: Seq<u8>, block: Seq<u8>) -> Seq<u8>;

/// The inverse permutation of the cipher on one block under one key.
pub uninterp spec fn aes_dec(key: Seq<u8>, block: Seq<u8>) -> Seq<u8>;

/// Relies on `aes::Aes256::new_from_slice` (the `KeyInit` trait): it expands
/// exactly the 32 key bytes it is given, and errs only on another length.
#[verifier::external_body]
fn aes256_init(key: &Vec<u8>) -> (r: aes::Aes256)
    requires
        key@.len() == 32,
    ensures
        cipher_key(r) == key@,
{
    <aes::Aes256 as aes::cipher::KeyInit>::new_from_slice(key.as_slice()).unwrap()
}

/// Relies on `aes::Aes256::encrypt_block` (the `BlockEncrypt` trait): the
/// forward permutation of one 16-byte block, a pure function of key and
/// block, inverted by `decrypt_block`.
#[verifier::external_body]
fn aes256_encrypt_block(c: &aes::Aes256, block: &Vec<u8>) -> (r: Vec<u8>)
    requires
        block@.len() == 16,
    ensures
        r@.len() == 16,
        r@ == aes_enc(cipher_key(*c), block@),
        aes_dec(cipher_key(*c), r@) == block@,
{
    let mut buf = aes::cipher::generic_array::GenericArray::clone_from_slice(block.as_slice());
    aes::cipher::BlockEncrypt::encrypt_block(c, &mut buf);
    buf.to_vec()
}

/// Relies on `aes::Aes256::decrypt_block` (the `BlockDecrypt` trait): the
/// inverse permutation of one 16-byte block, a pure function of key and
/// block, inverted by `encrypt_block`.
#[verifier::external_body]
fn aes256_decrypt_block(c: &aes::Aes256, block: &Vec<u8>) -> (r: Vec<u8>)
    requires
        block@.len() == 16,
    ensures
        r@.len() == 16,
        r@ == aes_dec(cipher_key(*c), block@),
        aes_enc(cipher_key(*c), r@) == block@,
{
    let mut buf = aes::cipher::generic_array::GenericArray::clone_from_slice(block.as_slice());
    aes::cipher::BlockDecrypt::decrypt_block(c, &mut buf);
    buf.to_vec()
}

/// Wraps the 256-bit block cipher behind exact key- and block-length checks.
/// Each call is an independent single-block transform; no chaining state is
/// kept between calls.
pub struct Aes256Cipher {
    aes: aes::Aes256,
}

impl Aes256Cipher {
    /// The 32-byte key this adapter was constructed with.
    pub closed spec fn key(self) -> Seq<u8> {
        cipher_key(self.aes)
    }

    /// Builds an adapter from exactly 32 key bytes; any other length is
    /// rejected rather than truncated or padded.
    pub fn new(key: Vec<u8>) -> (r: Result<Aes256Cipher, CryptoError>)
        ensures
            key@.len() == 32 ==> r is Ok && r->Ok_0.key() == key@,
            key@.len() != 32 ==> r == Err::<Aes256Cipher, CryptoError>(CryptoError::InvalidKeyLength),
    {
        if key.len() != 32 {
            Err(CryptoError::InvalidKeyLength)
        } else {
            Ok(Aes256Cipher { aes: aes256_init(&key) })
        }
    }

    /// Encrypts exactly one 16-byte block with the forward permutation. The
    /// result decrypts back to the input under the same key.
    pub fn encrypt(&self, data: Vec<u8>) -> (r: Result<Vec<u8>, CryptoError>)
        ensures
            data@.len() == 16 ==> r is Ok
                && r->Ok_0@ == aes_enc(self.key(), data@)
                && aes_dec(self.key(), r->Ok_0@) == data@
                && r->Ok_0@.len() == 16,
            data@.len() != 16 ==> r == Err::<Vec<u8>, CryptoError>(CryptoError::InvalidBlockLength),
    {
        if data.len() != 16 {
            Err(CryptoError::InvalidBlockLength)
        } else {
            Ok(aes256_encrypt_block(&self.aes, &data))
        }
    }

    /// Decrypts exactly one 16-byte block with the inverse permutation. The
    /// result encrypts back to the input under the same key, so decrypting a
    /// block produced by `encrypt` returns the original block.
    pub fn decrypt(&self, encrypted_data: Vec<u8>) -> (r: Result<Vec<u8>, CryptoError>)
        ensures
            encrypted_data@.len() == 16 ==> r is Ok
                && r->Ok_0@ == aes_dec(self.key(), encrypted_data@)
                && aes_enc(self.key(), r->Ok_0@) == encrypted_data@
                && r->Ok_0@.len() == 16,
            encrypted_data@.len() != 16 ==> r == Err::<Vec<u8>, CryptoError>(
                CryptoError::InvalidBlockLength,
            ),
    {
        if encrypted_data.len() != 16 {
            Err(CryptoError::InvalidBlockLength)
        } else {
            Ok(aes256_decrypt_block(&self.aes, &encrypted_data))
        }
    }
}

} // verus!
