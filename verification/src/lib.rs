//! Small, self-contained numeric and text utilities: exact Fibonacci numbers
//! rendered as decimal text, a greeting, and a few helpers on integers and
//! arrays. Every function carries a contract stated over the mathematical
//! models defined alongside it.

use vstd::prelude::*;

pub mod arrays;
pub mod bignum;
pub mod decimal;
pub mod fibonacci;
pub mod greeting;

pub use arrays::{element_at, modulo};
pub use fibonacci::fibonacci;
pub use greeting::hello_napi;

verus! {

/// `input` plus one hundred.
pub fn plus_100(input: u32) -> (sum: u32)
    requires
        input + 100 <= u32::MAX,
    ensures
        sum == input + 100,
{
    input + 100
}

/// The number of elements of `arr`, reduced to 32 bits: the length itself
/// wherever it fits.
pub fn get_array_length<T>(arr: Vec<T>) -> (len: u32)
    ensures
        len == arr@.len() as u32,
        arr@.len() <= u32::MAX ==> len == arr@.len(),
{
    #[verifier::truncate]
    (arr.len() as u32)
}

} // verus!
