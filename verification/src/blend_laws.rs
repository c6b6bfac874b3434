//! Laws of the Blend strategy's pool valuations.
use vstd::prelude::*;
use vstd::arithmetic::div_mod::lemma_div_is_ordered;
use crate::blend_strategy::{BlendStrategy, ReserveData};
use crate::math::mul_div;

verus! {

/// The liquidity quote counts the pool's free funds in underlying units:
/// b-tokens at the b-token rate less d-tokens at the d-token rate (each
/// rounded toward zero at the twelve-decimal rate scale), capped at the
/// tracked balance, less a margin of two units, never below zero. Nothing is
/// quoted with nothing tracked, and the tracked balance less the margin when
/// the pool cannot be read.
pub proof fn law_liquidity_counts_underlying(s: BlendStrategy, r: ReserveData)
    ensures
        ({
            let supplied = mul_div(r.b_supply as int, r.b_rate as int, 1_000_000_000_000);
            let borrowed = mul_div(r.d_supply as int, r.d_rate as int, 1_000_000_000_000);
            let free = supplied - borrowed;
            let cap = if free < s.tracked_balance { free } else { s.tracked_balance as int };
            s.tracked_balance != 0 ==> s.liquidity(Some(r)) == (if cap < 2 { 0 } else { cap - 2 })
        }),
        s.tracked_balance == 0 ==> s.liquidity(Some(r)) == 0 && s.liquidity(None) == 0,
        s.tracked_balance != 0 ==> s.liquidity(None) == (if s.tracked_balance < 2 { 0 } else { s.tracked_balance - 2 }),
{
}

/// With the same token counts, a higher d-token rate (more owed to the pool
/// for the same debt tokens) never raises the liquidity quote.
pub proof fn law_liquidity_falls_with_debt_rate(s: BlendStrategy, r: ReserveData, d_rate: i128)
    requires
        r.d_supply >= 0,
        0 <= r.d_rate <= d_rate,
    ensures
        s.liquidity(Some(ReserveData { d_rate, ..r })) <= s.liquidity(Some(r)),
{
    let lo = r.d_supply * r.d_rate;
    let hi = r.d_supply * d_rate;
    assert(0 <= lo <= hi) by (nonlinear_arith)
        requires
            r.d_supply >= 0,
            0 <= r.d_rate <= d_rate,
            lo == r.d_supply * r.d_rate,
            hi == r.d_supply * d_rate;
    lemma_div_is_ordered(lo, hi, 1_000_000_000_000);
}

/// The pool position an emergency withdrawal takes out is the strategy's own
/// collateral b-tokens at the b-token rate: it does not depend on how many
/// b-tokens other suppliers hold, nor on the pool's debt or backstop. When
/// the reserve or the positions cannot be read, the tracked balance stands in.
pub proof fn law_position_is_own_collateral(s: BlendStrategy, r: ReserveData, other: ReserveData, b: i128)
    requires
        other.b_rate == r.b_rate,
    ensures
        s.position_value(Some(r), Some(b)) == s.position_value(Some(other), Some(b)),
        s.position_value(Some(r), Some(b)) == mul_div(b as int, r.b_rate as int, 1_000_000_000_000),
        s.position_value(Some(r), None) == s.tracked_balance,
        s.position_value(None, Some(b)) == s.tracked_balance,
{
}

} // verus!
