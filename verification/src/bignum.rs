//! Trusted boundary around the arbitrary-precision integers that carry curve
//! coordinates and private-key scalars.

use vstd::prelude::*;

verus! {

/// `num_bigint::BigInt` carries coordinates and scalars through this crate;
/// the crate never looks inside one except through the functions below.
#[verifier::external_type_specification]
#[verifier::external_body]
pub struct ExBigInt(num_bigint::BigInt);

/// Relies on `<num_bigint::BigInt as Clone>::clone`: a derived field-by-field
/// copy of the canonical sign-and-magnitude form, so the copy equals the
/// original.
pub assume_specification[ <num_bigint::BigInt as Clone>::clone ](
    v: &num_bigint::BigInt,
) -> (r: num_bigint::BigInt)
    ensures
        r == *v,
;

/// The big integer holding a given machine word.
pub uninterp spec fn bigint_of_u64(v: u64) -> num_bigint::BigInt;

/// Relies on `<num_bigint::BigInt as From<u64>>::from`: the conversion is a
/// pure function of its argument.
#[verifier::external_body]
pub fn bigint_from_u64(v: u64) -> (r: num_bigint::BigInt)
    ensures
        r == bigint_of_u64(v),
{
    num_bigint::BigInt::from(v)
}

/// Relies on `<num_bigint::BigInt as PartialEq>::eq`: `BigInt` keeps a
/// canonical sign-and-magnitude form, so its `eq` decides value equality.
#[verifier::external_body]
pub fn bigint_eq(a: &num_bigint::BigInt, b: &num_bigint::BigInt) -> (r: bool)
    ensures
        r == (a == b),
{
    a == b
}

} // verus!
