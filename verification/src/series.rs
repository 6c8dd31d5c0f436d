//! The exact structure of the truncated sine and cosine series, and the
//! guarded classification of the derived tangent.
//!
//! A truncated Taylor sum is a sequence of terms; term `n` of the sine
//! series uses the power `2n + 1`, term `n` of the cosine series the power
//! `2n`, each divided by the factorial of its own power, with the sign
//! alternating and starting positive. Those indices, powers, factorial
//! arguments and signs are integers, so they are computed and proved here;
//! the floating-point products built on them live with the caller.

use vstd::prelude::*;

verus! {

/// Fewest terms a series may be asked for.
pub const MIN_TERMS: u64 = 1;

/// Most terms a series may be asked for.
pub const MAX_TERMS: u64 = 50;

/// A term count the series evaluator accepts.
pub open spec fn valid_term_count(terms: u64) -> bool {
    MIN_TERMS <= terms <= MAX_TERMS
}

/// What a term count becomes once forced into the accepted range.
pub open spec fn clamped_term_count(terms: u64) -> u64 {
    if terms < MIN_TERMS {
        MIN_TERMS
    } else if terms > MAX_TERMS {
        MAX_TERMS
    } else {
        terms
    }
}

/// Forces a requested term count into the accepted range, leaving counts
/// that are already in range untouched.
pub fn clamp_term_count(terms: u64) -> (r: u64)
    ensures
        r == clamped_term_count(terms),
        valid_term_count(r),
        valid_term_count(terms) ==> r == terms,
{
    if terms < MIN_TERMS {
        MIN_TERMS
    } else if terms > MAX_TERMS {
        MAX_TERMS
    } else {
        terms
    }
}

/// The integer skeleton of one term of the truncated series: its index,
/// the powers of the angle it raises for sine and for cosine (which are
/// also the factorial arguments of its denominators), and whether the
/// alternating sign is positive at this index.
pub struct TermShape {
    pub index: u64,
    pub sin_power: u64,
    pub cos_power: u64,
    pub positive: bool,
}

/// A sequence of term shapes laid out as the truncated series demands:
/// term `n` carries sine power `2n + 1`, cosine power `2n` (each also the
/// factorial argument of its denominator), and a positive sign exactly at
/// even `n`.
pub open spec fn is_term_layout(s: Seq<TermShape>) -> bool {
    forall|i: int|
        0 <= i < s.len() ==> {
            &&& (#[trigger] s[i]).index == i
            &&& s[i].sin_power == 2 * i + 1
            &&& s[i].cos_power == 2 * i
            &&& (s[i].positive <==> i % 2 == 0)
        }
}

/// Lays out the terms of a truncated series with the given term count.
pub fn term_plan(terms: u64) -> (r: Vec<TermShape>)
    requires
        valid_term_count(terms),
    ensures
        r@.len() == terms,
        is_term_layout(r@),
{
    let mut r: Vec<TermShape> = Vec::new();
    let mut n: u64 = 0;
    while n < terms
        invariant
            terms <= MAX_TERMS,
            n <= terms,
            r@.len() == n,
            is_term_layout(r@),
        decreases terms - n,
    {
        r.push(TermShape { index: n, sin_power: 2 * n + 1, cos_power: 2 * n, positive: n % 2 == 0 });
        n = n + 1;
    }
    r
}

/// Raising the term count only appends terms: a shorter layout and a
/// longer one agree on every index they share, so every term already
/// summed stays exactly as it was.
pub proof fn lemma_term_layout_extends(short: Seq<TermShape>, long: Seq<TermShape>)
    requires
        is_term_layout(short),
        is_term_layout(long),
        short.len() <= long.len(),
    ensures
        forall|i: int| 0 <= i < short.len() ==> short[i] == long[i],
{
}

/// How a derived tangent is reported.
pub enum TanValue {
    /// The series cosine is within the guard threshold of zero and the
    /// series sine is not negative: report positive infinity.
    PositiveInfinite,
    /// The series cosine is within the guard threshold of zero and the
    /// series sine is negative: report negative infinity.
    NegativeInfinite,
    /// The series cosine is clear of zero: report the quotient sine over
    /// cosine.
    Quotient,
}

/// Decides how the tangent is reported, given whether the series cosine
/// lies within the guard threshold of zero and whether the series sine is
/// non-negative. Near the singularity the quotient is never taken: the
/// sign of the sine alone picks the infinity.
pub fn classify_tan(cos_near_zero: bool, sin_nonnegative: bool) -> (r: TanValue)
    ensures
        cos_near_zero && sin_nonnegative ==> r == TanValue::PositiveInfinite,
        cos_near_zero && !sin_nonnegative ==> r == TanValue::NegativeInfinite,
        !cos_near_zero ==> r == TanValue::Quotient,
{
    if cos_near_zero {
        if sin_nonnegative {
            TanValue::PositiveInfinite
        } else {
            TanValue::NegativeInfinite
        }
    } else {
        TanValue::Quotient
    }
}

} // verus!
