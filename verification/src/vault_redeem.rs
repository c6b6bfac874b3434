//! Redemptions and their withdrawal waterfall: idle funds first, then the
//! registered strategies in order, each asked for no more than it reports as
//! available right now.
use vstd::prelude::*;
use crate::address::Address;
use crate::balance_table::{amount_of, lemma_amounts_within_total};
use crate::vault::{TezoroVault, VaultError, VIRTUAL_SHARES_OFFSET};
use crate::vault_events::{VaultEvent, Redeem};

verus! {

/// A redemption in progress.
#[derive(Clone, Copy, PartialEq, Eq, Structural, Debug)]
pub struct RedeemFlow {
    /// The redeeming holder.
    pub from: Address,
    /// Shares to burn.
    pub shares: i128,
    /// Assets owed for them, priced when the redemption started.
    pub assets: i128,
    /// The holder's share balance when the redemption started.
    pub current_shares: i128,
    /// The vault's idle token balance when the redemption started.
    pub idle: i128,
    /// What the strategies still have to deliver.
    pub remaining: i128,
    /// Index of the next strategy to visit.
    pub cursor: usize,
    /// A withdrawal decided but not yet reported back.
    pub pending: Option<Withdrawal>,
}

/// A withdrawal to ask of a strategy.
#[derive(Clone, Copy, PartialEq, Eq, Structural, Debug)]
pub struct Withdrawal {
    pub strategy: Address,
    pub amount: i128,
}

/// What the host has to do next for a redemption.
#[derive(Clone, Copy, PartialEq, Eq, Structural, Debug)]
pub enum RedeemStep {
    /// Ask this strategy how much it can deliver now (`available_liquidity`).
    QueryLiquidity(Address),
    /// Withdraw this amount from this strategy to the vault.
    Withdraw(Address, i128),
    /// Read the vault's idle token balance again, then settle.
    CheckIdle,
    /// Idle funds covered the redemption from the start; settle.
    Settle,
}

impl RedeemFlow {
    /// The next step, given the vault's strategy list.
    pub open spec fn spec_next(&self, strategies: Seq<Address>) -> RedeemStep {
        if self.idle >= self.assets {
            RedeemStep::Settle
        } else {
            match self.pending {
                Some(p) => RedeemStep::Withdraw(p.strategy, p.amount),
                None => if self.remaining <= 0 || self.cursor >= strategies.len() {
                    RedeemStep::CheckIdle
                } else {
                    RedeemStep::QueryLiquidity(strategies[self.cursor as int])
                },
            }
        }
    }

    /// The strategy of the pending withdrawal.
    pub open spec fn pending_strategy(&self) -> Address {
        match self.pending {
            Some(p) => p.strategy,
            None => self.from,
        }
    }

    /// The waterfall has nothing left to do.
    pub open spec fn is_done(&self, strategies: Seq<Address>) -> bool {
        self.spec_next(strategies) is CheckIdle || self.spec_next(strategies) is Settle
    }

    /// The flow once the strategy at the cursor reported `available`: a
    /// strategy with nothing available is skipped; otherwise the shortfall is
    /// requested from it, capped at what it reported.
    pub open spec fn after_liquidity(self, strategies: Seq<Address>, available: i128) -> RedeemFlow {
        if available <= 0 {
            RedeemFlow { cursor: (self.cursor + 1) as usize, ..self }
        } else {
            RedeemFlow {
                pending: Some(Withdrawal {
                    strategy: strategies[self.cursor as int],
                    amount: if self.remaining < available { self.remaining } else { available },
                }),
                ..self
            }
        }
    }

    /// The flow once the pending strategy delivered `withdrawn`: the shortfall
    /// drops by that much, never below zero, and the next strategy is due.
    pub open spec fn after_withdrawal(self, withdrawn: i128) -> RedeemFlow {
        RedeemFlow {
            remaining: if withdrawn >= self.remaining { 0 } else { (self.remaining - withdrawn) as i128 },
            cursor: (self.cursor + 1) as usize,
            pending: None,
            ..self
        }
    }

    /// What the host has to do next.
    pub fn next_step(&self, vault: &TezoroVault) -> (r: RedeemStep)
        requires
            vault.flow_consistent(*self),
        ensures
            r == self.spec_next(vault.strategies@),
    {
        if self.idle >= self.assets {
            RedeemStep::Settle
        } else {
            match self.pending {
                Some(p) => RedeemStep::Withdraw(p.strategy, p.amount),
                None => if self.remaining <= 0 || self.cursor >= vault.strategies.len() {
                    RedeemStep::CheckIdle
                } else {
                    RedeemStep::QueryLiquidity(vault.strategies[self.cursor])
                },
            }
        }
    }

    /// Takes in the liquidity the current strategy reports: a strategy with
    /// nothing available is skipped; otherwise the shortfall is requested from
    /// it, capped at what it reports.
    pub fn on_liquidity(&mut self, vault: &TezoroVault, available: i128)
        requires
            vault.wf(),
            vault.flow_consistent(*old(self)),
            old(self).spec_next(vault.strategies@) is QueryLiquidity,
        ensures
            vault.flow_consistent(*final(self)),
            *final(self) == old(self).after_liquidity(vault.strategies@, available),
    {
        if available <= 0 {
            self.cursor = self.cursor + 1;
        } else {
            let to_pull = if self.remaining < available {
                self.remaining
            } else {
                available
            };
            self.pending = Some(Withdrawal { strategy: vault.strategies[self.cursor], amount: to_pull });
        }
    }
}

impl TezoroVault {
    /// `flow` is a redemption started on this vault and still in progress.
    pub open spec fn flow_consistent(&self, f: RedeemFlow) -> bool {
        &&& 0 < f.shares <= f.current_shares
        &&& f.current_shares == self.shares_of(f.from)
        &&& f.assets > 0
        &&& f.idle >= 0
        &&& f.cursor <= self.strategies@.len()
        &&& f.remaining >= 0
        &&& f.idle >= f.assets ==> f.remaining == 0 && f.pending is None
        &&& f.pending matches Some(p) ==> {
            &&& f.cursor < self.strategies@.len()
            &&& self.strategies@[f.cursor as int] == p.strategy
            &&& 0 < p.amount <= f.remaining
        }
    }

    /// The arithmetic of `redeem` stays within `i128` for these arguments.
    pub open spec fn redeem_in_range(&self, from: Address, shares: i128, idle: i128, now: u64) -> bool {
        let ta = self.assets_under_management(idle, now);
        (self.initialized && shares > 0 && self.shares_of(from) >= shares) ==> {
            &&& ta + VIRTUAL_SHARES_OFFSET <= i128::MAX
            &&& self.total_supply + VIRTUAL_SHARES_OFFSET <= i128::MAX
            &&& shares * (ta + VIRTUAL_SHARES_OFFSET) <= i128::MAX
        }
    }

    /// How a redemption of `shares` of `from` starts: the vault must be
    /// initialized, the shares positive and held, and worth at least one unit
    /// of the asset; the shortfall is what idle funds do not cover.
    pub open spec fn redeem_outcome(&self, from: Address, shares: i128, idle: i128, now: u64) -> Result<RedeemFlow, VaultError> {
        let assets = self.assets_for(shares as int, self.assets_under_management(idle, now));
        if !self.initialized {
            Err(VaultError::NotInitialized)
        } else if shares <= 0 {
            Err(VaultError::ZeroAmount)
        } else if self.shares_of(from) < shares {
            Err(VaultError::InsufficientShares)
        } else if assets <= 0 {
            Err(VaultError::ZeroAmount)
        } else {
            Ok(RedeemFlow {
                from,
                shares,
                assets: assets as i128,
                current_shares: self.shares_of(from) as i128,
                idle,
                remaining: if idle < assets { (assets - idle) as i128 } else { 0 },
                cursor: 0,
                pending: None,
            })
        }
    }

    /// Starts redeeming `shares` of `from`, priced now. Allowed while paused:
    /// holders can always exit.
    pub fn redeem(&self, from: Address, shares: i128, idle: i128, now: u64) -> (r: Result<RedeemFlow, VaultError>)
        requires
            self.wf(),
            idle >= 0,
            self.redeem_in_range(from, shares, idle, now),
        ensures
            r == self.redeem_outcome(from, shares, idle, now),
            r matches Ok(f) ==> self.flow_consistent(f),
    {
        if !self.initialized {
            return Err(VaultError::NotInitialized);
        }
        if shares <= 0 {
            return Err(VaultError::ZeroAmount);
        }
        let current_shares = self.share_balances.get(&from);
        if current_shares < shares {
            return Err(VaultError::InsufficientShares);
        }
        proof {
            assert(self.asset is Some);
            crate::vault_shares::lemma_sum_tracked_nonneg(self.strategies@, self.tracked_balances@);
        }
        let assets = self.convert_to_assets(shares, idle, now);
        if assets <= 0 {
            return Err(VaultError::ZeroAmount);
        }
        let remaining = if idle < assets {
            assets - idle
        } else {
            0
        };
        Ok(RedeemFlow { from, shares, assets, current_shares, idle, remaining, cursor: 0, pending: None })
    }

    /// Takes in what the pending strategy actually delivered. Its tracked
    /// balance drops by that much, never below zero (the strategy may deliver
    /// a little more than asked because of rounding), and so does the shortfall.
    pub fn on_redeem_withdrawn(&mut self, flow: &mut RedeemFlow, withdrawn: i128)
        requires
            old(self).wf(),
            old(self).flow_consistent(*old(flow)),
            old(flow).pending is Some,
            withdrawn <= old(self).tracked_of(old(flow).pending_strategy()) ==> old(self).tracked_of(old(flow).pending_strategy()) - withdrawn <= i128::MAX,
            withdrawn < old(flow).remaining ==> old(flow).remaining - withdrawn <= i128::MAX,
        ensures
            final(self).wf(),
            final(self).flow_consistent(*final(flow)),
            ({
                let s = old(flow).pending_strategy();
                let t = old(self).tracked_of(s);
                &&& final(self).tracked_balances@ == old(self).tracked_balances@.insert(
                    s, if withdrawn > t { 0 } else { (t - withdrawn) as i128 })
                &&& *final(self) == (TezoroVault { tracked_balances: final(self).tracked_balances, ..*old(self) })
                &&& *final(flow) == old(flow).after_withdrawal(withdrawn)
            }),
    {
        let strategy = flow.pending.unwrap().strategy;
        let held = self.tracked_balances.get(&strategy);
        let new_held = if withdrawn > held {
            0
        } else {
            held - withdrawn
        };
        self.tracked_balances.set(strategy, new_held);
        flow.remaining = if withdrawn >= flow.remaining {
            0
        } else {
            flow.remaining - withdrawn
        };
        flow.pending = None;
        flow.cursor = flow.cursor + 1;
        proof {
            assert forall|k: Address| #[trigger] self.tracked_balances@.contains_key(k)
                implies self.tracked_balances@[k] >= 0 by {
                if k != strategy {
                    assert(old(self).tracked_balances@.contains_key(k));
                }
            }
        }
    }

    /// Finishes a redemption whose waterfall is done: fails when the vault
    /// still holds less than the assets owed (`idle_after` is the vault's idle
    /// balance read again; it is not consulted when idle funds covered the
    /// redemption from the start), otherwise burns the shares. The caller
    /// then sends the returned assets to the holder.
    pub fn redeem_settle(&mut self, flow: RedeemFlow, idle_after: i128) -> (r: Result<i128, VaultError>)
        requires
            old(self).wf(),
            old(self).flow_consistent(flow),
            flow.is_done(old(self).strategies@),
        ensures
            final(self).wf(),
            flow.idle < flow.assets && idle_after < flow.assets ==> {
                &&& r == Err::<i128, VaultError>(VaultError::InsufficientAssets)
                &&& *final(self) == *old(self)
            },
            !(flow.idle < flow.assets && idle_after < flow.assets) ==> {
                &&& r == Ok::<i128, VaultError>(flow.assets)
                &&& final(self).share_balances@ == old(self).share_balances@.insert(
                    flow.from, (flow.current_shares - flow.shares) as i128)
                &&& final(self).total_supply == old(self).total_supply - flow.shares
                &&& final(self).share_balances.total() == old(self).share_balances.total() - flow.shares
                &&& final(self).events@ == old(self).events@.push(
                    VaultEvent::Redeem(Redeem { from: flow.from, shares: flow.shares, assets: flow.assets }))
                &&& *final(self) == (TezoroVault {
                    share_balances: final(self).share_balances,
                    total_supply: final(self).total_supply,
                    events: final(self).events,
                    ..*old(self)
                })
            },
    {
        if flow.idle < flow.assets && idle_after < flow.assets {
            return Err(VaultError::InsufficientAssets);
        }
        proof {
            lemma_amounts_within_total(&self.share_balances, flow.from, flow.from);
        }
        self.share_balances.set(flow.from, flow.current_shares - flow.shares);
        let supply = self.total_supply;
        self.total_supply = supply - flow.shares;
        self.events.push(VaultEvent::Redeem(Redeem { from: flow.from, shares: flow.shares, assets: flow.assets }));
        proof {
            assert forall|k: Address| #[trigger] self.share_balances@.contains_key(k)
                implies self.share_balances@[k] >= 0 by {
                if k != flow.from {
                    assert(old(self).share_balances@.contains_key(k));
                }
            }
        }
        Ok(flow.assets)
    }
}

} // verus!
