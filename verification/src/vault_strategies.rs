//! Strategy registration and fund allocation.
use vstd::prelude::*;
use crate::address::Address;
use crate::balance_table::amount_of;
use crate::common::MAX_BPS;
use crate::math::mul_div;
use crate::vault::{TezoroVault, VaultError, MAX_STRATEGIES};
use crate::vault_events::{VaultEvent, StrategyAdd, StrategyRemove, Allocate, Deallocate, BridgedUpdate, TrackedUpdate};

verus! {

impl TezoroVault {
    /// Whether `strategy` is registered.
    pub fn strategy_exists(&self, strategy: &Address) -> (r: bool)
        ensures
            r == self.is_strategy(*strategy),
    {
        let mut i: usize = 0;
        while i < self.strategies.len()
            invariant
                i <= self.strategies@.len(),
                forall|j: int| 0 <= j < i ==> self.strategies@[j] != *strategy,
            decreases self.strategies@.len() - i,
        {
            if self.strategies[i] == *strategy {
                return true;
            }
            i = i + 1;
        }
        false
    }

    /// The registered strategies, in registration order.
    pub fn get_strategies(&self) -> (r: Vec<Address>)
        ensures
            r@ == self.strategies@,
    {
        self.strategies.clone()
    }

    /// Tracked balance of `strategy`.
    pub fn tracked_balance(&self, strategy: &Address) -> (r: i128)
        requires
            self.wf(),
        ensures
            r == self.tracked_of(*strategy),
    {
        self.tracked_balances.get(strategy)
    }

    /// Registers `strategy` with a tracked balance of zero (admin only).
    pub fn add_strategy(&mut self, caller: Address, strategy: Address) -> (r: Result<(), VaultError>)
        requires
            old(self).wf(),
            old(self).initialized,
        ensures
            final(self).wf(),
            !old(self).is_admin(caller) ==> r == Err::<(), VaultError>(VaultError::Unauthorized),
            old(self).is_admin(caller) && old(self).strategies@.len() >= MAX_STRATEGIES
                ==> r == Err::<(), VaultError>(VaultError::MaxStrategies),
            old(self).is_admin(caller) && old(self).strategies@.len() < MAX_STRATEGIES && old(self).is_strategy(strategy)
                ==> r == Err::<(), VaultError>(VaultError::StrategyAlreadyActive),
            old(self).is_admin(caller) && old(self).strategies@.len() < MAX_STRATEGIES && !old(self).is_strategy(strategy)
                ==> r == Ok::<(), VaultError>(()),
            r is Err ==> *final(self) == *old(self),
            r is Ok ==> {
                &&& final(self).strategies@ == old(self).strategies@.push(strategy)
                &&& final(self).tracked_balances@ == old(self).tracked_balances@.insert(strategy, 0)
                &&& final(self).events@ == old(self).events@.push(VaultEvent::StrategyAdd(StrategyAdd { strategy }))
                &&& *final(self) == (TezoroVault {
                    strategies: final(self).strategies,
                    tracked_balances: final(self).tracked_balances,
                    events: final(self).events,
                    ..*old(self)
                })
            },
    {
        if Some(caller) != self.admin {
            return Err(VaultError::Unauthorized);
        }
        if self.strategies.len() >= MAX_STRATEGIES {
            return Err(VaultError::MaxStrategies);
        }
        if self.strategy_exists(&strategy) {
            return Err(VaultError::StrategyAlreadyActive);
        }
        self.strategies.push(strategy);
        self.tracked_balances.set(strategy, 0);
        self.events.push(VaultEvent::StrategyAdd(StrategyAdd { strategy }));
        proof {
            assert forall|k: Address| #[trigger] self.tracked_balances@.contains_key(k)
                implies self.tracked_balances@[k] >= 0 by {
                if k != strategy {
                    assert(old(self).tracked_balances@.contains_key(k));
                }
            }
            assert forall|i: int, j: int| 0 <= i < self.strategies@.len() && 0 <= j < self.strategies@.len() && i != j
                implies self.strategies@[i] != self.strategies@[j] by {
                if i < old(self).strategies@.len() && j < old(self).strategies@.len() {
                    assert(old(self).strategies@[i] == self.strategies@[i]);
                    assert(old(self).strategies@[j] == self.strategies@[j]);
                } else if i < old(self).strategies@.len() {
                    assert(old(self).strategies@[i] == self.strategies@[i]);
                } else {
                    assert(old(self).strategies@[j] == self.strategies@[j]);
                }
            }
        }
        Ok(())
    }

    /// Unregisters `strategy` and drops its tracked balance (admin only); a
    /// strategy still holding a positive tracked balance cannot be removed.
    pub fn remove_strategy(&mut self, caller: Address, strategy: Address) -> (r: Result<(), VaultError>)
        requires
            old(self).wf(),
            old(self).initialized,
        ensures
            final(self).wf(),
            !old(self).is_admin(caller) ==> r == Err::<(), VaultError>(VaultError::Unauthorized),
            old(self).is_admin(caller) && old(self).tracked_of(strategy) > 0
                ==> r == Err::<(), VaultError>(VaultError::StrategyHasBalance),
            old(self).is_admin(caller) && old(self).tracked_of(strategy) <= 0 && !old(self).is_strategy(strategy)
                ==> r == Err::<(), VaultError>(VaultError::StrategyNotActive),
            old(self).is_admin(caller) && old(self).tracked_of(strategy) <= 0 && old(self).is_strategy(strategy)
                ==> r == Ok::<(), VaultError>(()),
            r is Err ==> *final(self) == *old(self),
            r is Ok ==> {
                &&& final(self).strategies@ == old(self).strategies@.remove(old(self).strategies@.index_of(strategy))
                &&& !final(self).is_strategy(strategy)
                &&& final(self).tracked_balances@ == old(self).tracked_balances@.remove(strategy)
                &&& final(self).events@ == old(self).events@.push(VaultEvent::StrategyRemove(StrategyRemove { strategy }))
                &&& *final(self) == (TezoroVault {
                    strategies: final(self).strategies,
                    tracked_balances: final(self).tracked_balances,
                    events: final(self).events,
                    ..*old(self)
                })
            },
    {
        if Some(caller) != self.admin {
            return Err(VaultError::Unauthorized);
        }
        let held = self.tracked_balances.get(&strategy);
        if held > 0 {
            return Err(VaultError::StrategyHasBalance);
        }
        let ghost old_list = self.strategies@;
        let ghost mut at: int = 0;
        let mut found = false;
        let mut kept: Vec<Address> = Vec::new();
        let mut i: usize = 0;
        while i < self.strategies.len()
            invariant
                old_list == self.strategies@,
                old_list.no_duplicates(),
                i <= old_list.len(),
                !found ==> kept@ == old_list.take(i as int),
                !found ==> forall|j: int| 0 <= j < i ==> old_list[j] != strategy,
                found ==> 0 <= at < i && old_list[at] == strategy,
                found ==> kept@ == old_list.take(at) + old_list.subrange(at + 1, i as int),
            decreases old_list.len() - i,
        {
            let s = self.strategies[i];
            if s == strategy {
                proof {
                    at = i as int;
                    assert(old_list.take(at) + old_list.subrange(at + 1, i + 1) =~= old_list.take(i as int));
                }
                found = true;
            } else {
                proof {
                    if found {
                        assert(old_list.take(at) + old_list.subrange(at + 1, i + 1)
                            =~= (old_list.take(at) + old_list.subrange(at + 1, i as int)).push(s));
                    } else {
                        assert(old_list.take(i + 1) =~= old_list.take(i as int).push(s));
                    }
                }
                kept.push(s);
            }
            i = i + 1;
        }
        if !found {
            return Err(VaultError::StrategyNotActive);
        }
        proof {
            assert(old_list.contains(strategy));
            let idx = old_list.index_of(strategy);
            assert(old_list[idx] == strategy);
            assert(idx == at);
            assert(kept@ =~= old_list.remove(at));
            assert forall|j: int| 0 <= j < kept@.len() implies kept@[j] != strategy by {
                if j < at {
                    assert(kept@[j] == old_list[j]);
                } else {
                    assert(kept@[j] == old_list[j + 1]);
                }
            }
            assert forall|p: int, q: int| 0 <= p < kept@.len() && 0 <= q < kept@.len() && p != q
                implies kept@[p] != kept@[q] by {
                let pp = if p < at { p } else { p + 1 };
                let qq = if q < at { q } else { q + 1 };
                assert(kept@[p] == old_list[pp]);
                assert(kept@[q] == old_list[qq]);
            }
        }
        self.strategies = kept;
        self.tracked_balances.remove(&strategy);
        self.events.push(VaultEvent::StrategyRemove(StrategyRemove { strategy }));
        proof {
            assert forall|k: Address| #[trigger] self.tracked_balances@.contains_key(k)
                implies self.tracked_balances@[k] >= 0 by {
                assert(old(self).tracked_balances@.contains_key(k));
            }
        }
        Ok(())
    }
    /// The idle balance the vault must keep after an allocation: the idle
    /// buffer share of the assets under management.
    pub open spec fn min_idle(&self, idle: i128, now: u64) -> int {
        mul_div(self.assets_under_management(idle, now), self.idle_buffer_bps as int, MAX_BPS as int)
    }

    /// The error the checks of `allocate` that come before the strategy's
    /// health check report, if any.
    pub open spec fn allocate_error(&self, keeper: Address, strategy: Address, amount: i128, idle: i128, now: u64) -> Option<VaultError> {
        if !self.is_keeper(keeper) {
            Some(VaultError::Unauthorized)
        } else if amount <= 0 {
            Some(VaultError::ZeroAmount)
        } else if !self.is_strategy(strategy) {
            Some(VaultError::StrategyNotActive)
        } else if idle - amount < self.min_idle(idle, now) {
            Some(VaultError::IdleBufferViolation)
        } else {
            None
        }
    }

    /// The arithmetic of `allocate` stays within `i128` for these arguments.
    pub open spec fn allocate_in_range(&self, keeper: Address, strategy: Address, amount: i128, idle: i128, now: u64) -> bool {
        (self.is_keeper(keeper) && amount > 0 && self.is_strategy(strategy)) ==> {
            &&& self.assets_under_management(idle, now) <= i128::MAX
            &&& self.assets_under_management(idle, now) * self.idle_buffer_bps <= i128::MAX
            &&& self.tracked_of(strategy) + amount <= i128::MAX
        }
    }

    /// The checks `allocate` makes before consulting the strategy's health:
    /// keeper only, a positive amount, a registered strategy, and an idle
    /// balance after the allocation of at least the idle buffer.
    pub fn allocate(&self, keeper: Address, strategy: Address, amount: i128, idle: i128, now: u64) -> (r: Result<(), VaultError>)
        requires
            self.wf(),
            self.initialized,
            idle >= 0,
            self.allocate_in_range(keeper, strategy, amount, idle, now),
        ensures
            r == (match self.allocate_error(keeper, strategy, amount, idle, now) {
                Some(e) => Err::<(), VaultError>(e),
                None => Ok::<(), VaultError>(()),
            }),
    {
        if Some(keeper) != self.keeper {
            return Err(VaultError::Unauthorized);
        }
        if amount <= 0 {
            return Err(VaultError::ZeroAmount);
        }
        if !self.strategy_exists(&strategy) {
            return Err(VaultError::StrategyNotActive);
        }
        let total = self.total_assets(idle, now);
        proof {
            assert(total * self.idle_buffer_bps >= 0) by (nonlinear_arith)
                requires
                    total >= 0,
                    self.idle_buffer_bps >= 0;
        }
        let buffer_bps = self.idle_buffer_bps as i128;
        let min_idle = total * buffer_bps / (MAX_BPS as i128);
        let idle_after = idle - amount;
        if idle_after < min_idle {
            return Err(VaultError::IdleBufferViolation);
        }
        Ok(())
    }

    /// Completes an allocation once the strategy's health is known: the same
    /// checks as `allocate`, then an unhealthy strategy is refused, otherwise
    /// its tracked balance grows by `amount`. The caller moves `amount` of the
    /// underlying token to the strategy and has it deploy them.
    pub fn complete_allocate(
        &mut self,
        keeper: Address,
        strategy: Address,
        amount: i128,
        idle: i128,
        now: u64,
        healthy: bool,
    ) -> (r: Result<(), VaultError>)
        requires
            old(self).wf(),
            old(self).initialized,
            idle >= 0,
            old(self).allocate_in_range(keeper, strategy, amount, idle, now),
        ensures
            final(self).wf(),
            old(self).allocate_error(keeper, strategy, amount, idle, now) matches Some(e) ==> r == Err::<(), VaultError>(e),
            old(self).allocate_error(keeper, strategy, amount, idle, now) is None && !healthy
                ==> r == Err::<(), VaultError>(VaultError::StrategyUnhealthy),
            old(self).allocate_error(keeper, strategy, amount, idle, now) is None && healthy ==> r == Ok::<(), VaultError>(()),
            r is Err ==> *final(self) == *old(self),
            r is Ok ==> {
                &&& final(self).tracked_balances@ == old(self).tracked_balances@.insert(
                    strategy, (old(self).tracked_of(strategy) + amount) as i128)
                &&& final(self).events@ == old(self).events@.push(VaultEvent::Allocate(Allocate { strategy, amount }))
                &&& *final(self) == (TezoroVault {
                    tracked_balances: final(self).tracked_balances,
                    events: final(self).events,
                    ..*old(self)
                })
            },
    {
        match self.allocate(keeper, strategy, amount, idle, now) {
            Err(e) => {
                return Err(e);
            },
            Ok(()) => {},
        }
        if !healthy {
            return Err(VaultError::StrategyUnhealthy);
        }
        let held = self.tracked_balances.get(&strategy);
        self.tracked_balances.set(strategy, held + amount);
        self.events.push(VaultEvent::Allocate(Allocate { strategy, amount }));
        proof {
            assert forall|k: Address| #[trigger] self.tracked_balances@.contains_key(k)
                implies self.tracked_balances@[k] >= 0 by {
                if k != strategy {
                    assert(old(self).tracked_balances@.contains_key(k));
                }
            }
        }
        Ok(())
    }

    /// The error the checks of `deallocate` report, if any.
    pub open spec fn deallocate_error(&self, keeper: Address, strategy: Address, amount: i128) -> Option<VaultError> {
        if !self.is_keeper(keeper) {
            Some(VaultError::Unauthorized)
        } else if amount <= 0 {
            Some(VaultError::ZeroAmount)
        } else if !self.is_strategy(strategy) {
            Some(VaultError::StrategyNotActive)
        } else {
            None
        }
    }

    /// The checks `deallocate` makes before asking the strategy to withdraw:
    /// keeper only, a positive amount, a registered strategy.
    pub fn deallocate(&self, keeper: Address, strategy: Address, amount: i128) -> (r: Result<(), VaultError>)
        requires
            self.initialized,
        ensures
            r == (match self.deallocate_error(keeper, strategy, amount) {
                Some(e) => Err::<(), VaultError>(e),
                None => Ok::<(), VaultError>(()),
            }),
    {
        if Some(keeper) != self.keeper {
            return Err(VaultError::Unauthorized);
        }
        if amount <= 0 {
            return Err(VaultError::ZeroAmount);
        }
        if !self.strategy_exists(&strategy) {
            return Err(VaultError::StrategyNotActive);
        }
        Ok(())
    }

    /// Completes a deallocation with what the strategy actually delivered:
    /// the same checks as `deallocate`, then the tracked balance drops by
    /// `withdrawn`, never below zero. Returns `withdrawn`.
    pub fn complete_deallocate(&mut self, keeper: Address, strategy: Address, amount: i128, withdrawn: i128) -> (r: Result<i128, VaultError>)
        requires
            old(self).wf(),
            old(self).initialized,
            withdrawn <= old(self).tracked_of(strategy) ==> old(self).tracked_of(strategy) - withdrawn <= i128::MAX,
        ensures
            final(self).wf(),
            old(self).deallocate_error(keeper, strategy, amount) matches Some(e) ==> r == Err::<i128, VaultError>(e),
            old(self).deallocate_error(keeper, strategy, amount) is None ==> r == Ok::<i128, VaultError>(withdrawn),
            r is Err ==> *final(self) == *old(self),
            r is Ok ==> {
                &&& final(self).tracked_balances@ == old(self).tracked_balances@.insert(strategy,
                    if withdrawn > old(self).tracked_of(strategy) { 0 } else { (old(self).tracked_of(strategy) - withdrawn) as i128 })
                &&& final(self).events@ == old(self).events@.push(
                    VaultEvent::Deallocate(Deallocate { strategy, amount: withdrawn }))
                &&& *final(self) == (TezoroVault {
                    tracked_balances: final(self).tracked_balances,
                    events: final(self).events,
                    ..*old(self)
                })
            },
    {
        match self.deallocate(keeper, strategy, amount) {
            Err(e) => {
                return Err(e);
            },
            Ok(()) => {},
        }
        let held = self.tracked_balances.get(&strategy);
        let new_held = if withdrawn > held {
            0
        } else {
            held - withdrawn
        };
        self.tracked_balances.set(strategy, new_held);
        self.events.push(VaultEvent::Deallocate(Deallocate { strategy, amount: withdrawn }));
        proof {
            assert forall|k: Address| #[trigger] self.tracked_balances@.contains_key(k)
                implies self.tracked_balances@[k] >= 0 by {
                if k != strategy {
                    assert(old(self).tracked_balances@.contains_key(k));
                }
            }
        }
        Ok(withdrawn)
    }

    /// The error the checks of `emergency_withdraw_strategy` report, if any.
    pub open spec fn emergency_error(&self, caller: Address, strategy: Address) -> Option<VaultError> {
        if self.admin != Some(caller) && self.guardian != Some(caller) {
            Some(VaultError::Unauthorized)
        } else if !self.is_strategy(strategy) {
            Some(VaultError::StrategyNotActive)
        } else {
            None
        }
    }

    /// The checks an emergency withdrawal makes before pulling everything out
    /// of the strategy: admin or guardian, a registered strategy.
    pub fn emergency_withdraw_strategy(&self, caller: Address, strategy: Address) -> (r: Result<(), VaultError>)
        requires
            self.initialized,
        ensures
            r == (match self.emergency_error(caller, strategy) {
                Some(e) => Err::<(), VaultError>(e),
                None => Ok::<(), VaultError>(()),
            }),
    {
        if Some(caller) != self.admin && Some(caller) != self.guardian {
            return Err(VaultError::Unauthorized);
        }
        if !self.strategy_exists(&strategy) {
            return Err(VaultError::StrategyNotActive);
        }
        Ok(())
    }

    /// Completes an emergency withdrawal with what the strategy delivered:
    /// the same checks, then the strategy's tracked balance is zero.
    /// Returns `withdrawn`.
    pub fn complete_emergency_withdraw_strategy(&mut self, caller: Address, strategy: Address, withdrawn: i128) -> (r: Result<i128, VaultError>)
        requires
            old(self).wf(),
            old(self).initialized,
        ensures
            final(self).wf(),
            old(self).emergency_error(caller, strategy) matches Some(e) ==> r == Err::<i128, VaultError>(e),
            old(self).emergency_error(caller, strategy) is None ==> r == Ok::<i128, VaultError>(withdrawn),
            r is Err ==> *final(self) == *old(self),
            r is Ok ==> {
                &&& final(self).tracked_balances@ == old(self).tracked_balances@.insert(strategy, 0)
                &&& final(self).events@ == old(self).events@.push(
                    VaultEvent::Deallocate(Deallocate { strategy, amount: withdrawn }))
                &&& *final(self) == (TezoroVault {
                    tracked_balances: final(self).tracked_balances,
                    events: final(self).events,
                    ..*old(self)
                })
            },
    {
        match self.emergency_withdraw_strategy(caller, strategy) {
            Err(e) => {
                return Err(e);
            },
            Ok(()) => {},
        }
        self.tracked_balances.set(strategy, 0);
        self.events.push(VaultEvent::Deallocate(Deallocate { strategy, amount: withdrawn }));
        proof {
            assert forall|k: Address| #[trigger] self.tracked_balances@.contains_key(k)
                implies self.tracked_balances@[k] >= 0 by {
                if k != strategy {
                    assert(old(self).tracked_balances@.contains_key(k));
                }
            }
        }
        Ok(withdrawn)
    }

    /// Records the keeper's attestation of the balance bridged to other
    /// chains, stamped with the ledger time `now` (keeper only).
    pub fn attest_bridged_balance(&mut self, keeper: Address, balance: i128, now: u64) -> (r: Result<(), VaultError>)
        requires
            old(self).wf(),
            old(self).initialized,
        ensures
            final(self).wf(),
            !old(self).is_keeper(keeper) ==> r == Err::<(), VaultError>(VaultError::Unauthorized),
            old(self).is_keeper(keeper) && balance < 0 ==> r == Err::<(), VaultError>(VaultError::InvalidBalance),
            old(self).is_keeper(keeper) && balance >= 0 ==> r == Ok::<(), VaultError>(()),
            r is Err ==> *final(self) == *old(self),
            r is Ok ==> {
                &&& final(self).events@ == old(self).events@.push(
                    VaultEvent::BridgedUpdate(BridgedUpdate { balance, timestamp: now }))
                &&& *final(self) == (TezoroVault {
                    bridged_balance: balance,
                    bridged_timestamp: now,
                    events: final(self).events,
                    ..*old(self)
                })
            },
    {
        if Some(keeper) != self.keeper {
            return Err(VaultError::Unauthorized);
        }
        if balance < 0 {
            return Err(VaultError::InvalidBalance);
        }
        self.bridged_balance = balance;
        self.bridged_timestamp = now;
        self.events.push(VaultEvent::BridgedUpdate(BridgedUpdate { balance, timestamp: now }));
        Ok(())
    }

    /// Sets the tracked balance of a registered strategy (keeper only).
    pub fn update_tracked_balance(&mut self, keeper: Address, strategy: Address, balance: i128) -> (r: Result<(), VaultError>)
        requires
            old(self).wf(),
            old(self).initialized,
        ensures
            final(self).wf(),
            !old(self).is_keeper(keeper) ==> r == Err::<(), VaultError>(VaultError::Unauthorized),
            old(self).is_keeper(keeper) && balance < 0 ==> r == Err::<(), VaultError>(VaultError::InvalidBalance),
            old(self).is_keeper(keeper) && balance >= 0 && !old(self).is_strategy(strategy)
                ==> r == Err::<(), VaultError>(VaultError::StrategyNotActive),
            old(self).is_keeper(keeper) && balance >= 0 && old(self).is_strategy(strategy) ==> r == Ok::<(), VaultError>(()),
            r is Err ==> *final(self) == *old(self),
            r is Ok ==> {
                &&& final(self).tracked_balances@ == old(self).tracked_balances@.insert(strategy, balance)
                &&& final(self).events@ == old(self).events@.push(
                    VaultEvent::TrackedUpdate(TrackedUpdate { strategy, balance }))
                &&& *final(self) == (TezoroVault {
                    tracked_balances: final(self).tracked_balances,
                    events: final(self).events,
                    ..*old(self)
                })
            },
    {
        if Some(keeper) != self.keeper {
            return Err(VaultError::Unauthorized);
        }
        if balance < 0 {
            return Err(VaultError::InvalidBalance);
        }
        if !self.strategy_exists(&strategy) {
            return Err(VaultError::StrategyNotActive);
        }
        self.tracked_balances.set(strategy, balance);
        self.events.push(VaultEvent::TrackedUpdate(TrackedUpdate { strategy, balance }));
        proof {
            assert forall|k: Address| #[trigger] self.tracked_balances@.contains_key(k)
                implies self.tracked_balances@[k] >= 0 by {
                if k != strategy {
                    assert(old(self).tracked_balances@.contains_key(k));
                }
            }
        }
        Ok(())
    }
}

} // verus!
