//! Indexing an array by any number, and the divisibility of that number.

use vstd::prelude::*;

verus! {

/// The remark on `num`: the first of 4, 3 and 2 that divides it, or that none
/// of them does.
pub open spec fn divisibility_remark(num: nat) -> Seq<char> {
    if num % 4 == 0 {
        "index is divisible by 4"@
    } else if num % 3 == 0 {
        "index is divisible by 3"@
    } else if num % 2 == 0 {
        "index is divisible by 2"@
    } else {
        "index is not divisible by 4, 3, or 2"@
    }
}

/// Says which of 4, 3 and 2 divides `num`, trying them in that order.
pub fn modulo(num: usize) -> (remark: &'static str)
    ensures
        remark@ == divisibility_remark(num as nat),
{
    if num % 4 == 0 {
        "index is divisible by 4"
    } else if num % 3 == 0 {
        "index is divisible by 3"
    } else if num % 2 == 0 {
        "index is divisible by 2"
    } else {
        "index is not divisible by 4, 3, or 2"
    }
}

/// The position that `num` selects in a collection of `len` elements: `num`
/// wrapped around its length.
pub open spec fn wrapped_index(num: nat, len: nat) -> nat
    recommends
        len > 0,
{
    num % len
}

/// The element that `num` selects in `items`, together with its position.
/// Any `num` selects one: positions past the end wrap around.
pub fn element_at(items: &[i32], num: usize) -> (found: (usize, i32))
    requires
        items@.len() > 0,
    ensures
        found.0 == wrapped_index(num as nat, items@.len()),
        found.1 == items@[found.0 as int],
{
    let index: usize = num % items.len();
    (index, items[index])
}

} // verus!
