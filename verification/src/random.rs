//! Cryptographically-sourced random byte sequences for key material.

use vstd::prelude::*;

verus! {

/// Relies on `rand::random`: a fresh draw from the thread-local
/// cryptographic generator; nothing can be promised of the value.
pub assume_specification<T>[ rand::random::<T> ]() -> (r: T)
    where
        rand::distributions::Standard: rand::distributions::Distribution<T>,
;

/// Produces `size` bytes drawn independently from the cryptographic random
/// source.
pub fn generate_random_key(size: u64) -> (r: Vec<u8>)
    ensures
        r@.len() == size,
{
    let mut out: Vec<u8> = Vec::new();
    let mut i: u64 = 0;
    while i < size
        invariant
            i <= size,
            out@.len() == i,
        decreases size - i,
    {
        let b: u8 = rand::random::<u8>();
        out.push(b);
        i = i + 1;
    }
    out
}

} // verus!
