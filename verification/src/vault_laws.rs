//! Laws of the vault that relate several operations or hold of every state.
use vstd::prelude::*;
use vstd::arithmetic::div_mod::{lemma_div_is_ordered, lemma_div_by_multiple};
use crate::address::{Address, WasmHash};
use crate::math::{lemma_quotient_bounds, lemma_scale_round_trip, lemma_scale_monotone_in_amount, lemma_scale_antitone_in_divisor};
use crate::balance_table::amount_of;
use crate::vault::{TezoroVault, VIRTUAL_SHARES_OFFSET, sum_tracked};
use crate::math::mul_div;
use crate::vault::VaultError;
use crate::vault_redeem::{RedeemFlow, RedeemStep};

verus! {

/// Converting assets to shares and those shares back to assets, at one
/// price, never yields more than the assets put in.
pub proof fn law_conversion_round_trip_never_gains(v: TezoroVault, ta: int, assets: int)
    requires
        v.total_supply >= 0,
        ta >= 0,
        assets >= 0,
    ensures
        v.assets_for(v.shares_for(assets, ta), ta) <= assets,
{
    let s = v.total_supply + VIRTUAL_SHARES_OFFSET;
    let a = ta + VIRTUAL_SHARES_OFFSET;
    assert(assets * s >= 0) by (nonlinear_arith)
        requires
            assets >= 0,
            s > 0;
    lemma_quotient_bounds(assets * s, a);
    let sh = (assets * s) / a;
    assert(sh * a >= 0) by (nonlinear_arith)
        requires
            sh >= 0,
            a > 0;
    lemma_scale_round_trip(assets, s, a);
}

/// Depositing `assets` into a vault that manages `ta`, then redeeming the
/// shares minted for them (the vault now manages `ta + assets` and has those
/// shares in circulation), returns at most `assets`; exactly `assets` while
/// every share is backed by one unit of the asset, as in a fresh vault.
pub proof fn law_deposit_then_redeem_never_gains(before: TezoroVault, after: TezoroVault, ta: int, assets: int)
    requires
        before.total_supply >= 0,
        ta >= 0,
        assets > 0,
        after.total_supply == before.total_supply + before.shares_for(assets, ta),
    ensures
        before.shares_for(assets, ta) >= 0,
        after.assets_for(before.shares_for(assets, ta), ta + assets) <= assets,
        before.total_supply == ta ==> {
            &&& before.shares_for(assets, ta) == assets
            &&& after.assets_for(before.shares_for(assets, ta), ta + assets) == assets
        },
{
    let s = before.total_supply + VIRTUAL_SHARES_OFFSET;
    let a = ta + VIRTUAL_SHARES_OFFSET;
    assert(assets * s >= 0) by (nonlinear_arith)
        requires
            assets > 0,
            s > 0;
    lemma_quotient_bounds(assets * s, a);
    let sh = (assets * s) / a;
    assert(before.shares_for(assets, ta) == sh);
    assert(a * sh <= assets * s);
    let a2 = a + assets;
    let s2 = s + sh;
    assert(after.total_supply + VIRTUAL_SHARES_OFFSET == s2);
    assert(sh * a2 <= assets * s2) by (nonlinear_arith)
        requires
            a * sh <= assets * s,
            a2 == a + assets,
            s2 == s + sh;
    assert(sh * a2 >= 0) by (nonlinear_arith)
        requires
            sh >= 0,
            a2 > 0;
    lemma_div_is_ordered(sh * a2, assets * s2, s2);
    lemma_div_by_multiple(assets, s2);
    assert(after.assets_for(sh, ta + assets) == (sh * a2) / s2);
    if before.total_supply == ta {
        lemma_div_by_multiple(assets, a);
        assert(sh == assets);
        assert(s2 == a2);
        assert((assets * a2) / a2 == assets) by {
            lemma_div_by_multiple(assets, a2);
        }
    }
}

/// The same deposit buys no more shares once the vault manages more assets
/// for the same supply: a later depositor after yield gets fewer shares.
pub proof fn law_higher_price_fewer_shares(v: TezoroVault, assets: int, ta1: int, ta2: int)
    requires
        v.total_supply >= 0,
        assets >= 0,
        0 <= ta1 <= ta2,
    ensures
        v.shares_for(assets, ta2) <= v.shares_for(assets, ta1),
{
    lemma_scale_antitone_in_divisor(assets, v.total_supply + VIRTUAL_SHARES_OFFSET, ta1 + VIRTUAL_SHARES_OFFSET, ta2 + VIRTUAL_SHARES_OFFSET);
    assert(assets * (v.total_supply + VIRTUAL_SHARES_OFFSET) >= 0) by (nonlinear_arith)
        requires
            assets >= 0,
            v.total_supply >= 0;
}

/// A larger deposit never buys fewer shares, and more shares are never worth
/// fewer assets.
pub proof fn law_conversions_monotone(v: TezoroVault, x: int, y: int, ta: int)
    requires
        v.total_supply >= 0,
        ta >= 0,
        0 <= x <= y,
    ensures
        v.shares_for(x, ta) <= v.shares_for(y, ta),
        v.assets_for(x, ta) <= v.assets_for(y, ta),
{
    let s = v.total_supply + VIRTUAL_SHARES_OFFSET;
    let a = ta + VIRTUAL_SHARES_OFFSET;
    lemma_scale_monotone_in_amount(x, y, s, a);
    lemma_scale_monotone_in_amount(x, y, a, s);
    assert(x * s >= 0 && y * s >= 0 && x * a >= 0 && y * a >= 0) by (nonlinear_arith)
        requires
            0 <= x <= y,
            s > 0,
            a > 0;
}

/// Pausing does not change what a redemption does: holders can always exit.
pub proof fn law_redeem_ignores_pause(v: TezoroVault, paused: bool, from: Address, shares: i128, idle: i128, now: u64)
    ensures
        (TezoroVault { paused, ..v }).redeem_outcome(from, shares, idle, now) == v.redeem_outcome(from, shares, idle, now),
{
}

/// A scheduled upgrade can never run at the time it was scheduled: the
/// delay is always positive.
pub proof fn law_upgrade_never_immediate(v: TezoroVault, hash: WasmHash, now: u64)
    requires
        v.wf(),
    ensures
        now < (TezoroVault { scheduled_upgrade: Some((hash, now)), ..v }).scheduled_at() + v.upgrade_delay,
{
}

/// The liquidity the strategies reported, counting only positive reports.
pub open spec fn reported_total(avail: Seq<i128>) -> int
    decreases avail.len(),
{
    if avail.len() == 0 {
        0
    } else {
        (if avail[0] > 0 { avail[0] as int } else { 0 }) + reported_total(avail.drop_first())
    }
}

/// The redemption waterfall run from `f` over the strategies from its cursor
/// on, the `i`-th of them reporting `avail[i]` as available and delivering
/// exactly what it is asked.
pub open spec fn waterfall(f: RedeemFlow, strategies: Seq<Address>, avail: Seq<i128>) -> RedeemFlow
    decreases avail.len(),
{
    if f.remaining <= 0 || f.cursor >= strategies.len() || avail.len() == 0 {
        f
    } else {
        let g = f.after_liquidity(strategies, avail[0]);
        let h = match g.pending {
            Some(p) => g.after_withdrawal(p.amount),
            None => g,
        };
        waterfall(h, strategies, avail.drop_first())
    }
}

proof fn lemma_reported_total_nonneg(avail: Seq<i128>)
    ensures
        reported_total(avail) >= 0,
    decreases avail.len(),
{
    if avail.len() > 0 {
        lemma_reported_total_nonneg(avail.drop_first());
    }
}

/// A redemption takes from the strategies what they report as available,
/// in order, until the shortfall is covered: when every strategy delivers
/// what it is asked, the shortfall left at the end is what the reported
/// liquidity could not cover, so it is zero whenever the strategies together
/// report at least the shortfall, and the waterfall has nothing left to do.
pub proof fn law_waterfall_covers_shortfall(v: TezoroVault, f: RedeemFlow, avail: Seq<i128>)
    requires
        v.wf(),
        v.flow_consistent(f),
        f.pending is None,
        avail.len() == v.strategies@.len() - f.cursor,
    ensures
        ({
            let end = waterfall(f, v.strategies@, avail);
            &&& end.remaining == (if f.remaining > reported_total(avail) { f.remaining - reported_total(avail) } else { 0 })
            &&& v.flow_consistent(end)
            &&& end.is_done(v.strategies@)
        }),
    decreases avail.len(),
{
    lemma_reported_total_nonneg(avail);
    let s = v.strategies@;
    if f.remaining <= 0 || f.cursor >= s.len() || avail.len() == 0 {
    } else {
        let g = f.after_liquidity(s, avail[0]);
        let h = match g.pending {
            Some(p) => g.after_withdrawal(p.amount),
            None => g,
        };
        assert(avail.drop_first().len() == s.len() - h.cursor);
        law_waterfall_covers_shortfall(v, h, avail.drop_first());
    }
}

/// The flow after the host follows the next steps `fuel` times, the strategy
/// at position `i` reporting `avail[i]` as available and delivering exactly
/// what it is asked; it stops early once the next step is to settle.
pub open spec fn driven(f: RedeemFlow, strategies: Seq<Address>, avail: Seq<i128>, fuel: nat) -> RedeemFlow
    decreases fuel,
{
    if fuel == 0 {
        f
    } else {
        match f.spec_next(strategies) {
            RedeemStep::QueryLiquidity(_) => driven(
                f.after_liquidity(strategies, avail[f.cursor as int]), strategies, avail, (fuel - 1) as nat),
            RedeemStep::Withdraw(_, amount) => driven(f.after_withdrawal(amount), strategies, avail, (fuel - 1) as nat),
            _ => f,
        }
    }
}

/// Following the redemption's next steps visits every strategy from the
/// cursor on while a shortfall remains: with two steps per strategy the host
/// reaches exactly the waterfall over the remaining strategies, and then is
/// told to settle. No strategy is skipped while something is still owed.
pub proof fn law_steps_run_the_waterfall(v: TezoroVault, f: RedeemFlow, avail: Seq<i128>, fuel: nat)
    requires
        v.wf(),
        v.flow_consistent(f),
        f.pending is None,
        avail.len() == v.strategies@.len(),
        fuel >= 2 * (v.strategies@.len() - f.cursor),
    ensures
        driven(f, v.strategies@, avail, fuel) == waterfall(f, v.strategies@, avail.subrange(f.cursor as int, avail.len() as int)),
        driven(f, v.strategies@, avail, fuel).is_done(v.strategies@),
    decreases fuel,
{
    let s = v.strategies@;
    let rest = avail.subrange(f.cursor as int, avail.len() as int);
    law_waterfall_covers_shortfall(v, f, rest);
    if f.idle >= f.assets || f.remaining <= 0 || f.cursor >= s.len() {
    } else {
        let g = f.after_liquidity(s, avail[f.cursor as int]);
        assert(rest[0] == avail[f.cursor as int]);
        assert(rest.drop_first() =~= avail.subrange(f.cursor + 1, avail.len() as int));
        if avail[f.cursor as int] <= 0 {
            law_steps_run_the_waterfall(v, g, avail, (fuel - 1) as nat);
        } else {
            let p = g.pending->0;
            let h = g.after_withdrawal(p.amount);
            assert(g.spec_next(s) == RedeemStep::Withdraw(p.strategy, p.amount));
            assert(driven(g, s, avail, (fuel - 1) as nat) == driven(h, s, avail, (fuel - 2) as nat));
            law_steps_run_the_waterfall(v, h, avail, (fuel - 2) as nat);
        }
    }
}

/// An allocation by the keeper of a positive amount to a registered strategy
/// is refused for the idle buffer exactly when the idle balance left would
/// fall below the buffer's share of all assets under management: the idle
/// balance, the tracked balances of the strategies and the bridged balance
/// while its attestation is fresh.
pub proof fn law_allocation_keeps_idle_buffer(v: TezoroVault, keeper: Address, strategy: Address, amount: i128, idle: i128, now: u64)
    requires
        v.is_keeper(keeper),
        amount > 0,
        v.is_strategy(strategy),
    ensures
        ({
            let bridged = if v.bridged_balance == 0 {
                0
            } else if now > v.bridged_timestamp && now - v.bridged_timestamp > v.bridged_max_age {
                0
            } else {
                v.bridged_balance as int
            };
            let managed = idle + sum_tracked(v.strategies@, v.tracked_balances@) + bridged;
            let floor = mul_div(managed, v.idle_buffer_bps as int, 10_000);
            &&& idle - amount < floor ==> v.allocate_error(keeper, strategy, amount, idle, now) == Some(VaultError::IdleBufferViolation)
            &&& idle - amount >= floor ==> v.allocate_error(keeper, strategy, amount, idle, now) is None
        }),
{
}

/// Setting one strategy's tracked balance to `v` changes the sum over a list
/// without repeats by the difference, when the strategy is on the list.
proof fn lemma_sum_tracked_insert(s: Seq<Address>, m: Map<Address, i128>, k: Address, v: i128)
    requires
        s.no_duplicates(),
    ensures
        sum_tracked(s, m.insert(k, v)) == sum_tracked(s, m) + if s.contains(k) { v - amount_of(m, k) } else { 0 },
    decreases s.len(),
{
    if s.len() > 0 {
        let t = s.drop_last();
        assert forall|i: int, j: int| 0 <= i < t.len() && 0 <= j < t.len() && i != j implies t[i] != t[j] by {
            assert(t[i] == s[i] && t[j] == s[j]);
        }
        lemma_sum_tracked_insert(t, m, k, v);
        if s.last() == k {
            assert(!t.contains(k)) by {
                if t.contains(k) {
                    let i = t.index_of(k);
                    assert(s[i] == k && s[s.len() - 1] == k);
                }
            }
        } else {
            assert(s.contains(k) <==> t.contains(k)) by {
                if s.contains(k) {
                    let i = s.index_of(k);
                    assert(i < s.len() - 1);
                    assert(t[i] == k);
                }
                if t.contains(k) {
                    let i = t.index_of(k);
                    assert(s[i] == k);
                }
            }
        }
    }
}

/// Allocating `amount` to a registered strategy moves it from the vault's
/// idle balance into the strategy's tracked balance: the assets under
/// management stay the same.
pub proof fn law_allocation_keeps_total_assets(
    before: TezoroVault,
    after: TezoroVault,
    strategy: Address,
    amount: i128,
    idle: i128,
    idle_after: i128,
    now: u64,
)
    requires
        before.wf(),
        before.is_strategy(strategy),
        before.tracked_of(strategy) + amount <= i128::MAX,
        after.tracked_balances@ == before.tracked_balances@.insert(
            strategy, (before.tracked_of(strategy) + amount) as i128),
        after == (TezoroVault { tracked_balances: after.tracked_balances, events: after.events, ..before }),
        idle_after == idle - amount,
    ensures
        after.assets_under_management(idle_after, now) == before.assets_under_management(idle, now),
{
    lemma_sum_tracked_insert(before.strategies@, before.tracked_balances@, strategy,
        (before.tracked_of(strategy) + amount) as i128);
}

/// Taking back from a registered strategy no more than its tracked balance
/// moves that amount from the strategy into the vault's idle balance: the
/// assets under management stay the same.
pub proof fn law_deallocation_keeps_total_assets(
    before: TezoroVault,
    after: TezoroVault,
    strategy: Address,
    withdrawn: i128,
    idle: i128,
    idle_after: i128,
    now: u64,
)
    requires
        before.wf(),
        before.is_strategy(strategy),
        0 <= withdrawn <= before.tracked_of(strategy),
        after.tracked_balances@ == before.tracked_balances@.insert(
            strategy, (before.tracked_of(strategy) - withdrawn) as i128),
        after == (TezoroVault { tracked_balances: after.tracked_balances, events: after.events, ..before }),
        idle_after == idle + withdrawn,
    ensures
        after.assets_under_management(idle_after, now) == before.assets_under_management(idle, now),
{
    lemma_sum_tracked_insert(before.strategies@, before.tracked_balances@, strategy,
        (before.tracked_of(strategy) - withdrawn) as i128);
}

} // verus!
