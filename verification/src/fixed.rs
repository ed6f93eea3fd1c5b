//! Fixed-point arithmetic for monetary values.
//!
//! Monetary amounts and the KPI are held in micro-units: one currency unit is
//! `MICRO_PER_UNIT` micro-units. Division rounds half away from zero, which
//! is also the rounding used when the KPI is quantized to milli-units.

use vstd::arithmetic::div_mod::{
    lemma_div_is_ordered, lemma_div_multiples_vanish_quotient, lemma_div_nonincreasing,
    lemma_div_plus_one, lemma_div_pos_is_pos,
};
use vstd::prelude::*;

verus! {

/// One currency unit, expressed in micro-units.
pub const MICRO_PER_UNIT: i64 = 1_000_000;

/// Largest magnitude accepted by the executable rounding division; far above
/// anything the KPI pipeline produces, but small enough that the doubled
/// numerator cannot overflow `u128`.
pub const ROUND_DIV_LIMIT: i128 = 1_000_000_000_000_000_000_000_000_000_000_000_000;

/// `round_div(n, d)` is `n / d` rounded to the nearest integer, with halves
/// rounded away from zero. Meaningful only for `d > 0`.
pub open spec fn round_div(n: int, d: int) -> int
    recommends
        d > 0,
{
    if n >= 0 {
        (2 * n + d) / (2 * d)
    } else {
        -((2 * (-n) + d) / (2 * d))
    }
}

/// For a non-negative numerator bounded by `a`, the rounded quotient is
/// non-negative and at most `a / d + 1`.
proof fn lemma_round_div_bound_nonneg(n: int, d: int, a: int)
    requires
        d > 0,
        0 <= n <= a,
    ensures
        0 <= round_div(n, d) <= a / d + 1,
{
    lemma_div_pos_is_pos(2 * n + d, 2 * d);
    lemma_div_is_ordered(2 * n + d, 2 * (a + d), 2 * d);
    lemma_div_multiples_vanish_quotient(2, a + d, d);
    lemma_div_plus_one(a, d);
}

/// The magnitude of the rounded quotient of any numerator bounded by `a` in
/// magnitude is at most `a / d + 1`.
pub proof fn lemma_round_div_bound(n: int, d: int, a: int)
    requires
        d > 0,
        -a <= n <= a,
    ensures
        -(a / d + 1) <= round_div(n, d) <= a / d + 1,
{
    if n >= 0 {
        lemma_round_div_bound_nonneg(n, d, a);
    } else {
        lemma_round_div_bound_nonneg(-n, d, a);
    }
}

/// Scaling numerator and denominator by a common positive factor does not
/// change the rounded quotient.
pub proof fn lemma_round_div_scale(n: int, d: int, k: int)
    requires
        d > 0,
        k > 0,
    ensures
        round_div(k * n, k * d) == round_div(n, d),
{
    assert(2 * (k * d) == k * (2 * d)) by (nonlinear_arith);
    assert(k * d > 0) by (nonlinear_arith)
        requires
            k > 0,
            d > 0,
    ;
    if n >= 0 {
        assert(k * n >= 0) by (nonlinear_arith)
            requires
                k > 0,
                n >= 0,
        ;
        assert(2 * (k * n) + k * d == k * (2 * n + d)) by (nonlinear_arith);
        lemma_div_multiples_vanish_quotient(k, 2 * n + d, 2 * d);
    } else {
        assert(k * n < 0) by (nonlinear_arith)
            requires
                k > 0,
                n < 0,
        ;
        assert(2 * (-(k * n)) + k * d == k * (2 * (-n) + d)) by (nonlinear_arith);
        lemma_div_multiples_vanish_quotient(k, 2 * (-n) + d, 2 * d);
    }
}

/// Rounded division of non-negative machine integers.
fn round_div_u128(n: u128, d: u128) -> (r: u128)
    requires
        0 < d,
        n <= ROUND_DIV_LIMIT,
        d <= ROUND_DIV_LIMIT,
    ensures
        r == round_div(n as int, d as int),
{
    (2 * n + d) / (2 * d)
}

/// Rounded division of signed machine integers: `n / d` to the nearest
/// integer, halves away from zero.
pub fn round_div_i128(n: i128, d: i128) -> (r: i128)
    requires
        0 < d <= ROUND_DIV_LIMIT,
        -ROUND_DIV_LIMIT <= n <= ROUND_DIV_LIMIT,
    ensures
        r == round_div(n as int, d as int),
{
    if n >= 0 {
        proof {
            lemma_round_div_bound_nonneg(n as int, d as int, ROUND_DIV_LIMIT as int);
            lemma_div_nonincreasing(ROUND_DIV_LIMIT as int, d as int);
        }
        round_div_u128(n as u128, d as u128) as i128
    } else {
        proof {
            lemma_round_div_bound_nonneg(-(n as int), d as int, ROUND_DIV_LIMIT as int);
            lemma_div_nonincreasing(ROUND_DIV_LIMIT as int, d as int);
        }
        -(round_div_u128((-n) as u128, d as u128) as i128)
    }
}

} // verus!
