//! Share accounting of the vault: assets under management, conversions,
//! deposits and share transfers.
use vstd::prelude::*;
use crate::address::Address;
use crate::balance_table::{amount_of, lemma_amounts_within_total};
use crate::math::mul_div;
use crate::vault::{TezoroVault, VaultError, sum_tracked, nonneg_entries, VIRTUAL_SHARES_OFFSET, DECIMALS};
use crate::vault_events::{VaultEvent, Deposit, Transfer};

verus! {

/// The tracked balances of the registered strategies add up to a non-negative amount.
pub proof fn lemma_sum_tracked_nonneg(s: Seq<Address>, m: Map<Address, i128>)
    requires
        nonneg_entries(m),
    ensures
        sum_tracked(s, m) >= 0,
    decreases s.len(),
{
    if s.len() > 0 {
        lemma_sum_tracked_nonneg(s.drop_last(), m);
        if m.contains_key(s.last()) {
            assert(m[s.last()] >= 0);
        }
    }
}

proof fn lemma_sum_tracked_prefix(s: Seq<Address>, m: Map<Address, i128>, i: int)
    requires
        nonneg_entries(m),
        0 <= i <= s.len(),
    ensures
        0 <= sum_tracked(s.take(i), m) <= sum_tracked(s, m),
    decreases s.len(),
{
    lemma_sum_tracked_nonneg(s.take(i), m);
    if i == s.len() {
        assert(s.take(i) =~= s);
    } else {
        lemma_sum_tracked_prefix(s.drop_last(), m, i);
        assert(s.drop_last().take(i) =~= s.take(i));
        if m.contains_key(s.last()) {
            assert(m[s.last()] >= 0);
        }
    }
}

impl TezoroVault {
    /// Shares worth `assets` when the vault manages `total_assets`.
    pub open spec fn shares_for(&self, assets: int, total_assets: int) -> int {
        mul_div(assets, self.total_supply + VIRTUAL_SHARES_OFFSET, total_assets + VIRTUAL_SHARES_OFFSET)
    }

    /// Assets worth `shares` when the vault manages `total_assets`.
    pub open spec fn assets_for(&self, shares: int, total_assets: int) -> int {
        mul_div(shares, total_assets + VIRTUAL_SHARES_OFFSET, self.total_supply + VIRTUAL_SHARES_OFFSET)
    }

    /// The bridged balance, or zero once its attestation is older than the
    /// configured maximum age at time `now`.
    pub fn effective_bridged_balance(&self, now: u64) -> (r: i128)
        ensures
            r == self.effective_bridged(now),
    {
        let balance = self.bridged_balance;
        if balance == 0 {
            return 0;
        }
        let ts = self.bridged_timestamp;
        if now > ts && now - ts > self.bridged_max_age {
            return 0;
        }
        balance
    }

    /// Assets under management, given the vault's idle token balance `idle`
    /// and the ledger time `now`.
    pub fn total_assets(&self, idle: i128, now: u64) -> (r: i128)
        requires
            self.wf(),
            self.asset is Some,
            idle >= 0,
            self.assets_under_management(idle, now) <= i128::MAX,
        ensures
            r == self.assets_under_management(idle, now),
            r >= 0,
    {
        let mut strategy_total: i128 = 0;
        let mut i: usize = 0;
        proof {
            assert(self.strategies@.take(0) =~= Seq::<Address>::empty());
            lemma_sum_tracked_nonneg(self.strategies@, self.tracked_balances@);
        }
        while i < self.strategies.len()
            invariant
                self.wf(),
                i <= self.strategies@.len(),
                strategy_total == sum_tracked(self.strategies@.take(i as int), self.tracked_balances@),
                idle >= 0,
                self.assets_under_management(idle, now) <= i128::MAX,
            decreases self.strategies@.len() - i,
        {
            let s = self.strategies[i];
            let t = self.tracked_balances.get(&s);
            proof {
                let q = self.strategies@.take(i + 1);
                assert(q.drop_last() =~= self.strategies@.take(i as int));
                assert(q.last() == s);
                lemma_sum_tracked_prefix(self.strategies@, self.tracked_balances@, i + 1);
                lemma_sum_tracked_prefix(self.strategies@, self.tracked_balances@, i as int);
            }
            strategy_total = strategy_total + t;
            i = i + 1;
        }
        proof {
            assert(self.strategies@.take(i as int) =~= self.strategies@);
        }
        let bridged = self.effective_bridged_balance(now);
        idle + strategy_total + bridged
    }

    /// Assets under management, or `None` where computing them overflows.
    pub fn total_assets_checked(&self, idle: i128, now: u64) -> (r: Option<i128>)
        requires
            self.wf(),
            idle >= 0,
        ensures
            r == (if self.assets_under_management(idle, now) <= i128::MAX {
                Some(self.assets_under_management(idle, now) as i128)
            } else {
                None::<i128>
            }),
    {
        let mut strategy_total: i128 = 0;
        let mut i: usize = 0;
        proof {
            assert(self.strategies@.take(0) =~= Seq::<Address>::empty());
            lemma_sum_tracked_nonneg(self.strategies@, self.tracked_balances@);
        }
        while i < self.strategies.len()
            invariant
                self.wf(),
                i <= self.strategies@.len(),
                strategy_total == sum_tracked(self.strategies@.take(i as int), self.tracked_balances@),
                idle >= 0,
            decreases self.strategies@.len() - i,
        {
            let s = self.strategies[i];
            let t = self.tracked_balances.get(&s);
            proof {
                let q = self.strategies@.take(i + 1);
                assert(q.drop_last() =~= self.strategies@.take(i as int));
                assert(q.last() == s);
                lemma_sum_tracked_prefix(self.strategies@, self.tracked_balances@, i + 1);
                lemma_sum_tracked_prefix(self.strategies@, self.tracked_balances@, i as int);
            }
            match strategy_total.checked_add(t) {
                Some(v) => {
                    strategy_total = v;
                },
                None => {
                    return None;
                },
            }
            i = i + 1;
        }
        proof {
            assert(self.strategies@.take(i as int) =~= self.strategies@);
        }
        let bridged = self.effective_bridged_balance(now);
        match idle.checked_add(strategy_total) {
            Some(a) => a.checked_add(bridged),
            None => None,
        }
    }

    /// Shares that `assets` buy at the current price (rounded toward zero).
    pub fn convert_to_shares(&self, assets: i128, idle: i128, now: u64) -> (r: i128)
        requires
            self.wf(),
            self.asset is Some,
            idle >= 0,
            self.assets_under_management(idle, now) + VIRTUAL_SHARES_OFFSET <= i128::MAX,
            self.total_supply + VIRTUAL_SHARES_OFFSET <= i128::MAX,
            i128::MIN <= assets * (self.total_supply + VIRTUAL_SHARES_OFFSET) <= i128::MAX,
        ensures
            r == self.shares_for(assets as int, self.assets_under_management(idle, now)),
    {
        let total_assets = self.total_assets(idle, now);
        let total_supply = self.total_supply;
        assets * (total_supply + VIRTUAL_SHARES_OFFSET) / (total_assets + VIRTUAL_SHARES_OFFSET)
    }

    /// Assets that `shares` are worth at the current price (rounded toward zero).
    pub fn convert_to_assets(&self, shares: i128, idle: i128, now: u64) -> (r: i128)
        requires
            self.wf(),
            self.asset is Some,
            idle >= 0,
            self.assets_under_management(idle, now) + VIRTUAL_SHARES_OFFSET <= i128::MAX,
            self.total_supply + VIRTUAL_SHARES_OFFSET <= i128::MAX,
            i128::MIN <= shares * (self.assets_under_management(idle, now) + VIRTUAL_SHARES_OFFSET) <= i128::MAX,
        ensures
            r == self.assets_for(shares as int, self.assets_under_management(idle, now)),
    {
        let total_assets = self.total_assets(idle, now);
        let total_supply = self.total_supply;
        shares * (total_assets + VIRTUAL_SHARES_OFFSET) / (total_supply + VIRTUAL_SHARES_OFFSET)
    }

    /// Decimals of the share token.
    pub fn decimals(&self) -> (r: u32)
        ensures
            r == DECIMALS,
    {
        DECIMALS
    }

    /// Share balance of `id`.
    pub fn balance(&self, id: &Address) -> (r: i128)
        requires
            self.wf(),
        ensures
            r == self.shares_of(*id),
    {
        self.share_balances.get(id)
    }

    /// Total shares in circulation.
    pub fn total_supply(&self) -> (r: i128)
        ensures
            r == self.total_supply,
    {
        self.total_supply
    }

    /// The arithmetic of `deposit` stays within `i128` for these arguments.
    pub open spec fn deposit_in_range(&self, assets: i128, idle: i128, now: u64) -> bool {
        let ta = self.assets_under_management(idle, now);
        let capped = self.deposit_cap > 0 && ta + assets > self.deposit_cap;
        let shares = self.shares_for(assets as int, ta);
        (self.initialized && !self.paused && assets > 0) ==> {
            &&& ta <= i128::MAX
            &&& (self.deposit_cap > 0 ==> ta + assets <= i128::MAX)
            &&& !capped ==> {
                &&& self.total_supply + VIRTUAL_SHARES_OFFSET <= i128::MAX
                &&& assets * (self.total_supply + VIRTUAL_SHARES_OFFSET) <= i128::MAX
                &&& ta + VIRTUAL_SHARES_OFFSET <= i128::MAX
                &&& shares > 0 ==> self.total_supply + shares <= i128::MAX
            }
        }
    }

    /// Mints shares to `from` for `assets`, priced before the deposit. The
    /// caller moves `assets` of the underlying token from `from` to the vault.
    pub fn deposit(&mut self, from: Address, assets: i128, idle: i128, now: u64) -> (r: Result<i128, VaultError>)
        requires
            old(self).wf(),
            idle >= 0,
            old(self).deposit_in_range(assets, idle, now),
        ensures
            final(self).wf(),
            ({
                let ta = old(self).assets_under_management(idle, now);
                let shares = old(self).shares_for(assets as int, ta);
                &&& !old(self).initialized ==> r == Err::<i128, VaultError>(VaultError::NotInitialized)
                &&& old(self).initialized && old(self).paused ==> r == Err::<i128, VaultError>(VaultError::Paused)
                &&& old(self).initialized && !old(self).paused && assets <= 0
                    ==> r == Err::<i128, VaultError>(VaultError::ZeroAmount)
                &&& old(self).initialized && !old(self).paused && assets > 0
                    && old(self).deposit_cap > 0 && ta + assets > old(self).deposit_cap
                    ==> r == Err::<i128, VaultError>(VaultError::DepositCapExceeded)
                &&& old(self).initialized && !old(self).paused && assets > 0
                    && !(old(self).deposit_cap > 0 && ta + assets > old(self).deposit_cap) && shares <= 0
                    ==> r == Err::<i128, VaultError>(VaultError::ZeroAmount)
                &&& old(self).initialized && !old(self).paused && assets > 0
                    && !(old(self).deposit_cap > 0 && ta + assets > old(self).deposit_cap) && shares > 0
                    ==> r == Ok::<i128, VaultError>(shares as i128)
                &&& r is Ok ==> {
                    &&& final(self).share_balances@ == old(self).share_balances@.insert(
                        from, (old(self).shares_of(from) + shares) as i128)
                    &&& final(self).total_supply == old(self).total_supply + shares
                    &&& final(self).share_balances.total() == old(self).share_balances.total() + shares
                    &&& final(self).events@ == old(self).events@.push(
                        VaultEvent::Deposit(Deposit { from, assets, shares: shares as i128 }))
                    &&& *final(self) == (TezoroVault {
                        share_balances: final(self).share_balances,
                        total_supply: final(self).total_supply,
                        events: final(self).events,
                        ..*old(self)
                    })
                }
                &&& r is Err ==> *final(self) == *old(self)
            }),
    {
        if !self.initialized {
            return Err(VaultError::NotInitialized);
        }
        if self.paused {
            return Err(VaultError::Paused);
        }
        if assets <= 0 {
            return Err(VaultError::ZeroAmount);
        }
        let current_total = self.total_assets(idle, now);
        let cap = self.deposit_cap;
        if cap > 0 && current_total + assets > cap {
            return Err(VaultError::DepositCapExceeded);
        }
        let total_supply = self.total_supply;
        let shares = assets * (total_supply + VIRTUAL_SHARES_OFFSET) / (current_total + VIRTUAL_SHARES_OFFSET);
        if shares <= 0 {
            return Err(VaultError::ZeroAmount);
        }
        let current_shares = self.share_balances.get(&from);
        proof {
            lemma_amounts_within_total(&self.share_balances, from, from);
        }
        self.share_balances.set(from, current_shares + shares);
        self.total_supply = total_supply + shares;
        self.events.push(VaultEvent::Deposit(Deposit { from, assets, shares }));
        proof {
            assert forall|k: Address| #[trigger] self.share_balances@.contains_key(k)
                implies self.share_balances@[k] >= 0 by {
                if k != from {
                    assert(old(self).share_balances@.contains_key(k));
                }
            }
        }
        Ok(shares)
    }
    /// Moves `amount` shares from `from` to `to`.
    pub fn transfer(&mut self, from: Address, to: Address, amount: i128) -> (r: Result<(), VaultError>)
        requires
            old(self).wf(),
        ensures
            final(self).wf(),
            amount <= 0 ==> r == Err::<(), VaultError>(VaultError::ZeroAmount),
            amount > 0 && old(self).shares_of(from) < amount ==> r == Err::<(), VaultError>(VaultError::InsufficientShares),
            amount > 0 && old(self).shares_of(from) >= amount ==> r == Ok::<(), VaultError>(()),
            r is Err ==> *final(self) == *old(self),
            r is Ok ==> {
                &&& from != to ==> final(self).share_balances@ == old(self).share_balances@
                    .insert(from, (old(self).shares_of(from) - amount) as i128)
                    .insert(to, (old(self).shares_of(to) + amount) as i128)
                &&& from == to ==> final(self).share_balances@ == old(self).share_balances@
                &&& final(self).share_balances.total() == old(self).share_balances.total()
                &&& final(self).events@ == old(self).events@.push(
                    VaultEvent::Transfer(Transfer { from, to, amount }))
                &&& *final(self) == (TezoroVault {
                    share_balances: final(self).share_balances,
                    events: final(self).events,
                    ..*old(self)
                })
            },
    {
        if amount <= 0 {
            return Err(VaultError::ZeroAmount);
        }
        let from_bal = self.share_balances.get(&from);
        if from_bal < amount {
            return Err(VaultError::InsufficientShares);
        }
        proof {
            lemma_amounts_within_total(&self.share_balances, from, to);
        }
        self.share_balances.set(from, from_bal - amount);
        let to_bal = self.share_balances.get(&to);
        self.share_balances.set(to, to_bal + amount);
        self.events.push(VaultEvent::Transfer(Transfer { from, to, amount }));
        proof {
            assert forall|k: Address| #[trigger] self.share_balances@.contains_key(k)
                implies self.share_balances@[k] >= 0 by {
                if k != from && k != to {
                    assert(old(self).share_balances@.contains_key(k));
                }
            }
            if from == to {
                assert(old(self).share_balances@.contains_key(from));
                assert(self.share_balances@ =~= old(self).share_balances@);
            }
        }
        Ok(())
    }
}

} // verus!
