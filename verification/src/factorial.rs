//! Exact integer factorials, the denominators of the Taylor terms.

use vstd::prelude::*;

verus! {

/// Largest argument whose factorial still fits in a `u64`.
pub const MAX_FACTORIAL_INPUT: u64 = 20;

/// `n!` as a mathematical natural number.
pub open spec fn fact(n: nat) -> nat
    decreases n,
{
    if n == 0 {
        1
    } else {
        n * fact((n - 1) as nat)
    }
}

/// `0! == 1`, and `n! == n * (n - 1)!` for every `n >= 1`.
pub proof fn lemma_fact_recurrence(n: nat)
    ensures
        fact(0) == 1,
        n >= 1 ==> fact(n) == n * fact((n - 1) as nat),
{
}

/// Factorials never decrease as the argument grows.
pub proof fn lemma_fact_monotonic(a: nat, b: nat)
    requires
        a <= b,
    ensures
        fact(a) <= fact(b),
    decreases b,
{
    if a < b {
        lemma_fact_monotonic(a, (b - 1) as nat);
        assert(fact((b - 1) as nat) <= b * fact((b - 1) as nat)) by (nonlinear_arith)
            requires
                b >= 1,
        ;
    }
}

/// The value of the largest factorial a `u64` can hold.
pub proof fn lemma_fact_max_value()
    ensures
        fact(MAX_FACTORIAL_INPUT as nat) == 2432902008176640000,
{
    reveal_with_fuel(fact, 21);
}

/// Computes `n!` exactly; the input bound rules out `u64` overflow.
pub fn factorial(n: u64) -> (r: u64)
    requires
        n <= MAX_FACTORIAL_INPUT,
    ensures
        r == fact(n as nat),
{
    let mut acc: u64 = 1;
    let mut i: u64 = 1;
    while i <= n
        invariant
            n <= MAX_FACTORIAL_INPUT,
            1 <= i <= n + 1,
            acc == fact((i - 1) as nat),
        decreases n + 1 - i,
    {
        proof {
            lemma_fact_monotonic(i as nat, MAX_FACTORIAL_INPUT as nat);
            lemma_fact_max_value();
            assert(fact(i as nat) == i * fact((i - 1) as nat));
            assert(acc * i == fact(i as nat)) by (nonlinear_arith)
                requires
                    acc == fact((i - 1) as nat),
                    i >= 1,
                    fact(i as nat) == i * fact((i - 1) as nat),
            ;
        }
        acc = acc * i;
        i = i + 1;
    }
    acc
}

} // verus!
