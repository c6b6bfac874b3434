//! Performance fees above a high-water mark, minted as shares.
use vstd::prelude::*;
use crate::address::Address;
use crate::balance_table::lemma_amounts_within_total;
use crate::common::MAX_BPS;
use crate::math::mul_div;
use crate::vault::{TezoroVault, VaultError, NAV_PRECISION, VIRTUAL_SHARES_OFFSET};
use crate::vault_events::{VaultEvent, FeesCollected};

verus! {

impl TezoroVault {
    /// Net asset value per share, scaled by `NAV_PRECISION`, when the vault manages `ta`.
    pub open spec fn nav_for(&self, ta: int) -> int {
        mul_div(ta, NAV_PRECISION as int, self.total_supply as int)
    }

    /// The assets the shares in circulation were worth at the high-water mark.
    pub open spec fn hwm_assets(&self) -> int {
        mul_div(self.high_water_mark as int, self.total_supply as int, NAV_PRECISION as int)
    }

    /// The fee, in assets: the performance-fee share of the yield above the high-water mark.
    pub open spec fn fee_assets_for(&self, ta: int) -> int {
        mul_div(ta - self.hwm_assets(), self.performance_fee_bps as int, MAX_BPS as int)
    }

    /// The fee, in shares, priced before they are minted.
    pub open spec fn fee_shares_for(&self, ta: int) -> int {
        self.shares_for(self.fee_assets_for(ta), ta)
    }

    /// Fee collection at idle balance `idle` and time `now` succeeds: the
    /// vault is initialized and has shares out, the value per share is above
    /// the high-water mark, the fee rate is positive and the fee is at least
    /// one share.
    pub open spec fn fees_due(&self, idle: i128, now: u64) -> bool {
        let ta = self.assets_under_management(idle, now);
        &&& self.initialized
        &&& self.total_supply != 0
        &&& self.nav_for(ta) > self.high_water_mark
        &&& self.performance_fee_bps != 0
        &&& self.fee_shares_for(ta) > 0
    }

    /// The arithmetic of `collect_fees` stays within `i128` for these arguments.
    pub open spec fn collect_fees_in_range(&self, idle: i128, now: u64) -> bool {
        let ta = self.assets_under_management(idle, now);
        (self.initialized && self.total_supply != 0) ==> {
            &&& ta * NAV_PRECISION <= i128::MAX
            &&& (self.nav_for(ta) > self.high_water_mark && self.performance_fee_bps != 0) ==> {
                &&& self.high_water_mark * self.total_supply <= i128::MAX
                &&& i128::MIN <= (ta - self.hwm_assets()) * self.performance_fee_bps <= i128::MAX
                &&& self.total_supply + VIRTUAL_SHARES_OFFSET <= i128::MAX
                &&& i128::MIN <= self.fee_assets_for(ta) * (self.total_supply + VIRTUAL_SHARES_OFFSET) <= i128::MAX
                &&& ta + VIRTUAL_SHARES_OFFSET <= i128::MAX
                &&& self.fee_shares_for(ta) > 0 ==> self.total_supply + self.fee_shares_for(ta) <= i128::MAX
            }
        }
    }

    /// Mints the performance fee on the yield above the high-water mark to
    /// the fee recipient, and moves the mark to the value per share after
    /// dilution. Anyone may call it.
    pub fn collect_fees(&mut self, idle: i128, now: u64) -> (r: Result<i128, VaultError>)
        requires
            old(self).wf(),
            idle >= 0,
            old(self).collect_fees_in_range(idle, now),
        ensures
            final(self).wf(),
            ({
                let ta = old(self).assets_under_management(idle, now);
                let fee = old(self).fee_shares_for(ta);
                let recipient = old(self).fee_recipient->0;
                &&& !old(self).initialized ==> r == Err::<i128, VaultError>(VaultError::NotInitialized)
                &&& old(self).initialized && !old(self).fees_due(idle, now)
                    ==> r == Err::<i128, VaultError>(VaultError::NoFeesToCollect)
                &&& old(self).fees_due(idle, now) ==> r == Ok::<i128, VaultError>(fee as i128)
                &&& r is Err ==> *final(self) == *old(self)
                &&& r is Ok ==> {
                    &&& final(self).share_balances@ == old(self).share_balances@.insert(
                        recipient, (old(self).shares_of(recipient) + fee) as i128)
                    &&& final(self).total_supply == old(self).total_supply + fee
                    &&& final(self).share_balances.total() == old(self).share_balances.total() + fee
                    &&& final(self).high_water_mark == mul_div(ta, NAV_PRECISION as int, final(self).total_supply as int)
                    &&& final(self).events@ == old(self).events@.push(VaultEvent::FeesCollected(
                        FeesCollected { fee_shares: fee as i128, new_hwm: final(self).high_water_mark }))
                    &&& *final(self) == (TezoroVault {
                        share_balances: final(self).share_balances,
                        total_supply: final(self).total_supply,
                        high_water_mark: final(self).high_water_mark,
                        events: final(self).events,
                        ..*old(self)
                    })
                    &&& !final(self).fees_due(idle, now)
                }
            }),
    {
        if !self.initialized {
            return Err(VaultError::NotInitialized);
        }
        let total_supply = self.total_supply;
        if total_supply == 0 {
            return Err(VaultError::NoFeesToCollect);
        }
        proof {
            crate::vault_shares::lemma_sum_tracked_nonneg(self.strategies@, self.tracked_balances@);
        }
        let total_assets = self.total_assets(idle, now);
        proof {
            assert(total_assets * NAV_PRECISION >= 0) by (nonlinear_arith)
                requires
                    total_assets >= 0;
        }
        let current_nav = total_assets * NAV_PRECISION / total_supply;
        let hwm = self.high_water_mark;
        if current_nav <= hwm {
            return Err(VaultError::NoFeesToCollect);
        }
        let fee_bps = self.performance_fee_bps as i128;
        if fee_bps == 0 {
            return Err(VaultError::NoFeesToCollect);
        }
        proof {
            assert(hwm * total_supply >= 0) by (nonlinear_arith)
                requires
                    hwm >= 0,
                    total_supply >= 0;
        }
        let hwm_assets = hwm * total_supply / NAV_PRECISION;
        let total_yield = total_assets - hwm_assets;
        let fee_assets = total_yield * fee_bps / (MAX_BPS as i128);
        let fee_shares = fee_assets * (total_supply + VIRTUAL_SHARES_OFFSET) / (total_assets + VIRTUAL_SHARES_OFFSET);
        if fee_shares <= 0 {
            return Err(VaultError::NoFeesToCollect);
        }
        let recipient = self.fee_recipient.unwrap();
        let current = self.share_balances.get(&recipient);
        proof {
            lemma_amounts_within_total(&self.share_balances, recipient, recipient);
        }
        self.share_balances.set(recipient, current + fee_shares);
        self.total_supply = total_supply + fee_shares;
        let new_total_supply = total_supply + fee_shares;
        proof {
            let num: int = total_assets * NAV_PRECISION;
            assert(num >= 0);
            assert(num / (new_total_supply as int) >= 0) by (nonlinear_arith)
                requires
                    num >= 0,
                    new_total_supply > 0;
        }
        let new_hwm = total_assets * NAV_PRECISION / new_total_supply;
        self.high_water_mark = new_hwm;
        self.events.push(VaultEvent::FeesCollected(FeesCollected { fee_shares, new_hwm }));
        proof {
            assert forall|k: Address| #[trigger] self.share_balances@.contains_key(k)
                implies self.share_balances@[k] >= 0 by {
                if k != recipient {
                    assert(old(self).share_balances@.contains_key(k));
                }
            }
            assert(self.assets_under_management(idle, now) == old(self).assets_under_management(idle, now));
        }
        Ok(fee_shares)
    }
}

} // verus!
