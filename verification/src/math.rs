//! Integer arithmetic as the contracts compute it.
use vstd::prelude::*;
use vstd::arithmetic::div_mod::{lemma_fundamental_div_mod, lemma_div_is_ordered, lemma_div_is_ordered_by_denominator, lemma_div_by_multiple};

verus! {

/// Division rounding toward zero, as Rust's `/` on signed integers does
/// (the divisor is positive wherever the contracts divide).
pub open spec fn tdiv(a: int, b: int) -> int {
    if a >= 0 {
        a / b
    } else {
        -((-a) / b)
    }
}

/// `x * y / d`, multiplied first and rounded toward zero.
pub open spec fn mul_div(x: int, y: int, d: int) -> int {
    tdiv(x * y, d)
}

/// The divisor times the quotient is at most the dividend, and the quotient of
/// a non-negative dividend is non-negative.
pub proof fn lemma_quotient_bounds(x: int, d: int)
    requires
        x >= 0,
        d > 0,
    ensures
        d * (x / d) <= x,
        x / d >= 0,
{
    lemma_fundamental_div_mod(x, d);
    lemma_div_is_ordered(0, x, d);
}

/// Scaling by `n / d` and back by `d / n`, rounding down each time, never
/// gains: `(x * n / d) * d / n <= x`.
pub proof fn lemma_scale_round_trip(x: int, n: int, d: int)
    requires
        x >= 0,
        n > 0,
        d > 0,
    ensures
        ((x * n) / d) * d / n <= x,
{
    assert(x * n >= 0) by (nonlinear_arith)
        requires
            x >= 0,
            n > 0;
    lemma_quotient_bounds(x * n, d);
    let q = (x * n) / d;
    assert(q * d <= x * n) by (nonlinear_arith)
        requires
            d * q <= x * n;
    lemma_div_is_ordered(q * d, x * n, n);
    assert((x * n) / n == x) by {
        lemma_div_by_multiple(x, n);
    }
}

/// Rounding down `x * n / d` is monotone in `x` for non-negative `x`.
pub proof fn lemma_scale_monotone_in_amount(x: int, y: int, n: int, d: int)
    requires
        0 <= x <= y,
        n >= 0,
        d > 0,
    ensures
        (x * n) / d <= (y * n) / d,
{
    assert(x * n <= y * n) by (nonlinear_arith)
        requires
            x <= y,
            n >= 0;
    lemma_div_is_ordered(x * n, y * n, d);
}

/// Rounding down `x * n / d` can only shrink as the divisor grows.
pub proof fn lemma_scale_antitone_in_divisor(x: int, n: int, d1: int, d2: int)
    requires
        x >= 0,
        n >= 0,
        1 <= d1 <= d2,
    ensures
        (x * n) / d2 <= (x * n) / d1,
{
    assert(x * n >= 0) by (nonlinear_arith)
        requires
            x >= 0,
            n >= 0;
    lemma_div_is_ordered_by_denominator(x * n, d1, d2);
}

} // verus!
