//! Unbounded natural numbers, carried by `num_bigint::BigUint`.
//!
//! The verifier cannot look inside a `BigUint`, so this module names the
//! number that one holds and states, for each operation used here, what the
//! operation does to that number. Those statements are taken on trust from
//! the `num-bigint` crate; everything built on them is proved.

use vstd::prelude::*;
use num_bigint::BigUint;
use crate::decimal::decimal;

verus! {

/// `num_bigint::BigUint`, made known to the verifier as an opaque type.
#[verifier::external_type_specification]
#[verifier::external_body]
pub struct ExBigUint(num_bigint::BigUint);

/// The natural number that a `BigUint` holds.
pub uninterp spec fn biguint_value(x: BigUint) -> nat;

/// `BigUint::zero()` of `num_traits::Zero`: trusted to hold the number zero.
#[verifier::external_body]
pub(crate) fn big_zero() -> (z: BigUint)
    ensures
        biguint_value(z) == 0,
{
    <BigUint as num_traits::Zero>::zero()
}

/// `BigUint::one()` of `num_traits::One`: trusted to hold the number one.
#[verifier::external_body]
pub(crate) fn big_one() -> (o: BigUint)
    ensures
        biguint_value(o) == 1,
{
    <BigUint as num_traits::One>::one()
}

/// `&BigUint + &BigUint`: trusted to hold the exact sum of the two numbers,
/// whatever their size.
#[verifier::external_body]
pub(crate) fn big_add(a: &BigUint, b: &BigUint) -> (sum: BigUint)
    ensures
        biguint_value(sum) == biguint_value(*a) + biguint_value(*b),
{
    a + b
}

/// `BigUint::to_string()`, through its `Display` impl: trusted to give the
/// decimal digits of the number, most significant first, with no sign, no
/// padding and no leading zeros, and the single digit `0` for zero.
#[verifier::external_body]
pub(crate) fn big_to_string(x: &BigUint) -> (text: String)
    ensures
        text@ == decimal(biguint_value(*x)),
{
    x.to_string()
}

} // verus!
