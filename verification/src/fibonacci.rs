//! Fibonacci numbers of any size, as decimal text.

use vstd::prelude::*;
use num_bigint::BigUint;
use crate::bignum::{big_add, big_one, big_to_string, big_zero, biguint_value};
use crate::decimal::{
    decimal, decimal_value, is_decimal, lemma_decimal_is_canonical,
    lemma_decimal_value_of_decimal,
};

verus! {

/// The Fibonacci sequence: 0, 1, and from there on each term the sum of the
/// two before it.
pub open spec fn fib(n: nat) -> nat
    decreases n,
{
    if n == 0 {
        0
    } else if n == 1 {
        1
    } else {
        fib((n - 1) as nat) + fib((n - 2) as nat)
    }
}

/// The text that [`fibonacci`] returns for the index `n`: the decimal digits
/// of the `n`-th Fibonacci number.
pub open spec fn fibonacci_text(n: nat) -> Seq<char> {
    decimal(fib(n))
}

/// The `n`-th Fibonacci number, exact at any magnitude, as decimal text.
///
/// Runs in `n - 1` additions of unbounded integers and holds two of them at
/// a time.
pub fn fibonacci(n: u32) -> (text: String)
    ensures
        text@ == fibonacci_text(n as nat),
        n == 0 ==> text@ == "0"@,
        n == 1 ==> text@ == "1"@,
        is_decimal(text@),
{
    proof {
        lemma_decimal_is_canonical(fib(n as nat));
        reveal_strlit("0");
        reveal_strlit("1");
        assert(decimal(0) =~= "0"@);
        assert(decimal(1) =~= "1"@);
    }
    let mut a: BigUint = big_zero();
    let mut b: BigUint = big_one();

    if n == 0 {
        return big_to_string(&a);
    }
    if n == 1 {
        return big_to_string(&b);
    }
    let mut i: u32 = 1;
    while i < n
        invariant
            1 <= i <= n,
            biguint_value(a) == fib((i - 1) as nat),
            biguint_value(b) == fib(i as nat),
        decreases n - i,
    {
        let next = big_add(&a, &b);
        a = b;
        b = next;
        i = i + 1;
    }
    big_to_string(&b)
}

/// The sequence never decreases: a later term is at least an earlier one.
pub proof fn lemma_fib_monotonic(i: nat, j: nat)
    requires
        i <= j,
    ensures
        fib(i) <= fib(j),
    decreases j,
{
    if i < j {
        lemma_fib_monotonic(i, (j - 1) as nat);
    }
}

/// From the index 2 on, the text for an index is the decimal text of the sum
/// of the numbers that the texts for the two indices before it denote.
pub proof fn lemma_fibonacci_recurrence(n: nat)
    requires
        n >= 2,
    ensures
        fibonacci_text(n) == decimal(
            decimal_value(fibonacci_text((n - 1) as nat)) + decimal_value(
                fibonacci_text((n - 2) as nat),
            ),
        ),
{
    lemma_decimal_value_of_decimal(fib((n - 1) as nat));
    lemma_decimal_value_of_decimal(fib((n - 2) as nat));
}

/// The text for an index depends on the index alone: any two results for the
/// same index are the same text.
pub proof fn lemma_fibonacci_repeatable(n: nat, first: Seq<char>, second: Seq<char>)
    requires
        first == fibonacci_text(n),
        second == fibonacci_text(n),
    ensures
        first == second,
{
}

/// The number that the text for a later index denotes is at least the number
/// that the text for an earlier index denotes.
pub proof fn lemma_fibonacci_monotonic(n1: nat, n2: nat)
    requires
        n1 < n2,
    ensures
        decimal_value(fibonacci_text(n1)) <= decimal_value(fibonacci_text(n2)),
{
    lemma_fib_monotonic(n1, n2);
    lemma_decimal_value_of_decimal(fib(n1));
    lemma_decimal_value_of_decimal(fib(n2));
}

} // verus!
