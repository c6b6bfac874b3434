//! Whether the vault's arithmetic stays within range for given arguments.
//! The contract traps where it would not; a host checks these first and
//! traps the same way, since the operations themselves require them.
use vstd::prelude::*;
use crate::address::Address;
use crate::common::MAX_BPS;
use crate::vault::{TezoroVault, NAV_PRECISION, VIRTUAL_SHARES_OFFSET};
use crate::vault_redeem::RedeemFlow;

verus! {

impl TezoroVault {
    /// Whether `deposit_in_range` holds.
    pub fn deposit_fits(&self, assets: i128, idle: i128, now: u64) -> (r: bool)
        requires
            self.wf(),
            idle >= 0,
        ensures
            r == self.deposit_in_range(assets, idle, now),
    {
        proof {
            crate::vault_shares::lemma_sum_tracked_nonneg(self.strategies@, self.tracked_balances@);
        }
        if !(self.initialized && !self.paused && assets > 0) {
            return true;
        }
        let ta = match self.total_assets_checked(idle, now) {
            Some(t) => t,
            None => {
                return false;
            },
        };
        if self.deposit_cap > 0 {
            match ta.checked_add(assets) {
                None => {
                    return false;
                },
                Some(x) => {
                    if x > self.deposit_cap {
                        return true;
                    }
                },
            }
        }
        let ts_off = match self.total_supply.checked_add(VIRTUAL_SHARES_OFFSET) {
            Some(x) => x,
            None => {
                return false;
            },
        };
        let prod = match assets.checked_mul(ts_off) {
            Some(x) => x,
            None => {
                return false;
            },
        };
        let ta_off = match ta.checked_add(VIRTUAL_SHARES_OFFSET) {
            Some(x) => x,
            None => {
                return false;
            },
        };
        let shares = prod / ta_off;
        if shares > 0 {
            self.total_supply.checked_add(shares).is_some()
        } else {
            true
        }
    }

    /// Whether `redeem_in_range` holds.
    pub fn redeem_fits(&self, from: &Address, shares: i128, idle: i128, now: u64) -> (r: bool)
        requires
            self.wf(),
            idle >= 0,
        ensures
            r == self.redeem_in_range(*from, shares, idle, now),
    {
        proof {
            crate::vault_shares::lemma_sum_tracked_nonneg(self.strategies@, self.tracked_balances@);
        }
        if !(self.initialized && shares > 0 && self.share_balances.get(from) >= shares) {
            return true;
        }
        let ta = match self.total_assets_checked(idle, now) {
            Some(t) => t,
            None => {
                return false;
            },
        };
        let ta_off = match ta.checked_add(VIRTUAL_SHARES_OFFSET) {
            Some(x) => x,
            None => {
                return false;
            },
        };
        if self.total_supply.checked_add(VIRTUAL_SHARES_OFFSET).is_none() {
            return false;
        }
        proof {
            assert(shares * ta_off >= 0) by (nonlinear_arith)
                requires
                    shares > 0,
                    ta_off > 0;
        }
        shares.checked_mul(ta_off).is_some()
    }

    /// Whether the arithmetic of `on_redeem_withdrawn` stays within range.
    pub fn redeem_withdrawal_fits(&self, flow: &RedeemFlow, withdrawn: i128) -> (r: bool)
        requires
            self.wf(),
            flow.pending is Some,
        ensures
            r == ((withdrawn <= self.tracked_of(flow.pending_strategy()) ==> self.tracked_of(flow.pending_strategy()) - withdrawn <= i128::MAX)
                && (withdrawn < flow.remaining ==> flow.remaining - withdrawn <= i128::MAX)),
    {
        let held = self.tracked_balances.get(&flow.pending.unwrap().strategy);
        let first = if withdrawn <= held {
            held.checked_sub(withdrawn).is_some()
        } else {
            true
        };
        let second = if withdrawn < flow.remaining {
            flow.remaining.checked_sub(withdrawn).is_some()
        } else {
            true
        };
        first && second
    }

    /// Whether the arithmetic of `complete_deallocate` stays within range.
    pub fn deallocation_fits(&self, strategy: &Address, withdrawn: i128) -> (r: bool)
        requires
            self.wf(),
        ensures
            r == (withdrawn <= self.tracked_of(*strategy) ==> self.tracked_of(*strategy) - withdrawn <= i128::MAX),
    {
        let held = self.tracked_balances.get(strategy);
        if withdrawn <= held {
            held.checked_sub(withdrawn).is_some()
        } else {
            true
        }
    }

    /// Whether `allocate_in_range` holds.
    pub fn allocate_fits(&self, keeper: Address, strategy: Address, amount: i128, idle: i128, now: u64) -> (r: bool)
        requires
            self.wf(),
            idle >= 0,
        ensures
            r == self.allocate_in_range(keeper, strategy, amount, idle, now),
    {
        proof {
            crate::vault_shares::lemma_sum_tracked_nonneg(self.strategies@, self.tracked_balances@);
        }
        if !(Some(keeper) == self.keeper && amount > 0 && self.strategy_exists(&strategy)) {
            return true;
        }
        let ta = match self.total_assets_checked(idle, now) {
            Some(t) => t,
            None => {
                return false;
            },
        };
        proof {
            assert(ta * self.idle_buffer_bps >= 0) by (nonlinear_arith)
                requires
                    ta >= 0,
                    self.idle_buffer_bps >= 0;
        }
        if ta.checked_mul(self.idle_buffer_bps as i128).is_none() {
            return false;
        }
        self.tracked_balances.get(&strategy).checked_add(amount).is_some()
    }

    /// Whether `collect_fees_in_range` holds.
    pub fn collect_fees_fits(&self, idle: i128, now: u64) -> (r: bool)
        requires
            self.wf(),
            idle >= 0,
        ensures
            r == self.collect_fees_in_range(idle, now),
    {
        if !(self.initialized && self.total_supply != 0) {
            return true;
        }
        proof {
            crate::vault_shares::lemma_sum_tracked_nonneg(self.strategies@, self.tracked_balances@);
        }
        let ta = match self.total_assets_checked(idle, now) {
            Some(t) => t,
            None => {
                assert(self.assets_under_management(idle, now) * NAV_PRECISION > i128::MAX) by (nonlinear_arith)
                    requires
                        self.assets_under_management(idle, now) > i128::MAX;
                return false;
            },
        };
        let ta_p = match ta.checked_mul(NAV_PRECISION) {
            Some(x) => x,
            None => {
                return false;
            },
        };
        let ts = self.total_supply;
        let nav = ta_p / ts;
        if !(nav > self.high_water_mark && self.performance_fee_bps != 0) {
            return true;
        }
        let hwm_ts = match self.high_water_mark.checked_mul(ts) {
            Some(x) => x,
            None => {
                return false;
            },
        };
        proof {
            assert(self.high_water_mark * ts >= 0) by (nonlinear_arith)
                requires
                    self.high_water_mark >= 0,
                    ts >= 0;
        }
        let hwm_assets = hwm_ts / NAV_PRECISION;
        let fee_bps = self.performance_fee_bps as i128;
        let yield_bps = match (ta - hwm_assets).checked_mul(fee_bps) {
            Some(x) => x,
            None => {
                return false;
            },
        };
        let fee_assets = yield_bps / (MAX_BPS as i128);
        let ts_off = match ts.checked_add(VIRTUAL_SHARES_OFFSET) {
            Some(x) => x,
            None => {
                return false;
            },
        };
        let prod = match fee_assets.checked_mul(ts_off) {
            Some(x) => x,
            None => {
                return false;
            },
        };
        let ta_off = match ta.checked_add(VIRTUAL_SHARES_OFFSET) {
            Some(x) => x,
            None => {
                return false;
            },
        };
        let fee_shares = prod / ta_off;
        if fee_shares > 0 {
            ts.checked_add(fee_shares).is_some()
        } else {
            true
        }
    }
}

} // verus!
