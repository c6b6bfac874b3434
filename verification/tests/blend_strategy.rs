//! The Blend strategy driven through a small host: a token ledger, a lending
//! pool holding collateral b-tokens for its suppliers, and a ledger clock.
//! Each call is all-or-nothing, as on the contract host.

use std::collections::HashMap;
use tezoro::address::{Address, WasmHash};
use tezoro::blend_events::{BlendEvent, ConfigKey, ConfigUpdate, Deposit, Withdraw};
use tezoro::blend_strategy::{
    apply_rounding_margin, health_fits, position_fits, BlendStrategy, ReserveData, BLEND_RATE_SCALAR,
    DEFAULT_APPROVAL_BUFFER, REQUEST_SUPPLY_COLLATERAL, REQUEST_WITHDRAW_COLLATERAL,
};
use tezoro::common::StrategyError;
use tezoro::vault::{TezoroVault, VaultError};
use tezoro::vault_redeem::RedeemStep;

#[derive(Debug, Clone, Copy, PartialEq)]
enum Fail {
    Strategy(StrategyError),
    Vault(VaultError),
    Trap,
}

type Res<T> = Result<T, Fail>;

fn st<T>(r: Result<T, StrategyError>) -> Res<T> {
    r.map_err(Fail::Strategy)
}

fn vt<T>(r: Result<T, VaultError>) -> Res<T> {
    r.map_err(Fail::Vault)
}

/// A lending pool with one reserve.
#[derive(Clone)]
struct Pool {
    addr: Address,
    reserve: ReserveData,
    index: u32,
    collateral: HashMap<Address, i128>,
}

impl Pool {
    fn fresh(addr: Address) -> Pool {
        Pool {
            addr,
            reserve: ReserveData { b_rate: BLEND_RATE_SCALAR, b_supply: 0, backstop_credit: 0, d_rate: BLEND_RATE_SCALAR, d_supply: 0 },
            index: 0,
            collateral: HashMap::new(),
        }
    }

    fn collateral_of(&self, a: &Address) -> i128 {
        *self.collateral.get(a).unwrap_or(&0)
    }
}

#[derive(Clone)]
struct Host {
    strategy: BlendStrategy,
    me: Address,
    admin: Address,
    vault: Address,
    asset: Address,
    pool_addr: Address,
    pool: Option<Pool>,
    tokens: HashMap<Address, i128>,
    uploaded: Vec<WasmHash>,
    now: u64,
    sequence: u32,
    next: u128,
}

impl Host {
    /// A strategy initialized against `pool` (absent: nothing answers there).
    fn build(with_pool: bool) -> Host {
        let pool_addr = Address::new(1, 0, 5);
        let mut h = Host {
            strategy: BlendStrategy::new(),
            me: Address::new(1, 0, 1),
            admin: Address::new(0, 0, 2),
            vault: Address::new(0, 0, 3),
            asset: Address::new(1, 0, 4),
            pool_addr,
            pool: if with_pool { Some(Pool::fresh(pool_addr)) } else { None },
            tokens: HashMap::new(),
            uploaded: Vec::new(),
            now: 0,
            sequence: 100,
            next: 100,
        };
        let (a, v, s, p) = (h.admin, h.vault, h.asset, h.pool_addr);
        h.strategy.initialize(a, v, s, p).unwrap();
        h
    }

    fn without_pool() -> Host {
        let mut h = Host::build(false);
        let vault = h.vault;
        h.mint(vault, 100_000_0000000);
        h
    }

    fn with_pool() -> Host {
        let mut h = Host::build(true);
        let vault = h.vault;
        h.mint(vault, 1_000_000_0000000);
        h
    }

    fn gen(&mut self) -> Address {
        self.next += 1;
        Address::new(0, 0, self.next)
    }

    fn bal(&self, a: &Address) -> i128 {
        *self.tokens.get(a).unwrap_or(&0)
    }

    fn mint(&mut self, to: Address, amount: i128) {
        *self.tokens.entry(to).or_insert(0) += amount;
    }

    fn transfer(&mut self, from: Address, to: Address, amount: i128) -> Res<()> {
        let fb = self.bal(&from);
        if amount < 0 || fb < amount {
            return Err(Fail::Trap);
        }
        self.tokens.insert(from, fb - amount);
        let tb = self.bal(&to);
        self.tokens.insert(to, tb + amount);
        Ok(())
    }

    fn atomically<T>(&mut self, f: impl FnOnce(&mut Host) -> Res<T>) -> Res<T> {
        let snapshot = self.clone();
        let r = f(self);
        if r.is_err() {
            *self = snapshot;
        }
        r
    }

    fn reserve(&self) -> Option<ReserveData> {
        self.pool.as_ref().map(|p| p.reserve)
    }

    fn collateral(&self) -> Option<i128> {
        self.pool.as_ref().map(|p| p.collateral_of(&self.me))
    }

    /// The pool takes `amount` from the strategy as collateral.
    fn pool_supply(&mut self, amount: i128) -> Res<()> {
        let me = self.me;
        let pool_addr = match &self.pool {
            Some(p) => p.addr,
            None => return Err(Fail::Trap),
        };
        self.transfer(me, pool_addr, amount)?;
        let p = self.pool.as_mut().unwrap();
        let b = amount * BLEND_RATE_SCALAR / p.reserve.b_rate;
        *p.collateral.entry(me).or_insert(0) += b;
        p.reserve.b_supply += b;
        Ok(())
    }

    /// The pool returns `amount` of the strategy's collateral.
    fn pool_withdraw(&mut self, amount: i128) -> Res<()> {
        let me = self.me;
        let p = match self.pool.as_mut() {
            Some(p) => p,
            None => return Err(Fail::Trap),
        };
        let rate = p.reserve.b_rate;
        let burn = (amount * BLEND_RATE_SCALAR + rate - 1) / rate;
        let held = p.collateral_of(&me);
        if held < burn {
            return Err(Fail::Trap);
        }
        p.collateral.insert(me, held - burn);
        p.reserve.b_supply -= burn;
        let pool_addr = p.addr;
        self.transfer(pool_addr, me, amount)
    }

    fn require_init(&self) -> Res<()> {
        if self.strategy.initialized {
            Ok(())
        } else {
            Err(Fail::Trap)
        }
    }

    // ----- entry points -----

    fn deposit(&mut self, caller: Address, amount: i128) -> Res<()> {
        self.require_init()?;
        self.atomically(|h| {
            let s = &h.strategy;
            if s.vault == Some(caller) && !s.paused && amount > 0
                && (h.sequence.checked_add(s.approval_buffer).is_none() || s.tracked_balance.checked_add(amount).is_none())
            {
                return Err(Fail::Trap);
            }
            let seq = h.sequence;
            let supply = st(h.strategy.deposit(caller, amount, seq))?;
            assert_eq!(supply.request.request_type, REQUEST_SUPPLY_COLLATERAL);
            h.pool_supply(supply.request.amount)
        })
    }

    fn withdraw(&mut self, caller: Address, amount: i128) -> Res<i128> {
        self.require_init()?;
        self.atomically(|h| {
            let payout = st(h.strategy.withdraw(caller, amount))?;
            assert_eq!(payout.request.request_type, REQUEST_WITHDRAW_COLLATERAL);
            let w = payout.request.amount;
            h.pool_withdraw(w)?;
            let me = h.me;
            h.transfer(me, payout.recipient, w)?;
            Ok(w)
        })
    }

    fn emergency_withdraw(&mut self, caller: Address) -> Res<i128> {
        self.require_init()?;
        self.atomically(|h| {
            st(h.strategy.emergency_withdraw(caller))?;
            let (reserve, collateral) = (h.reserve(), h.collateral());
            if !position_fits(reserve, collateral) {
                return Err(Fail::Trap);
            }
            let position = h.strategy.query_pool_position(reserve, collateral);
            match st(h.strategy.complete_emergency_withdraw(caller, position))? {
                None => Ok(0),
                Some(payout) => {
                    let w = payout.request.amount;
                    h.pool_withdraw(w)?;
                    let me = h.me;
                    h.transfer(me, payout.recipient, w)?;
                    Ok(w)
                },
            }
        })
    }

    fn is_healthy(&self) -> Res<bool> {
        self.require_init()?;
        let reserve = self.reserve();
        if !health_fits(reserve) {
            return Err(Fail::Trap);
        }
        Ok(self.strategy.is_healthy(reserve))
    }

    fn available_liquidity(&self) -> Res<i128> {
        let reserve = if self.strategy.tracked_balance == 0 { None } else { self.reserve() };
        if !self.strategy.liquidity_fits(reserve) {
            return Err(Fail::Trap);
        }
        Ok(self.strategy.available_liquidity(reserve))
    }

    /// Claims emissions; the pool has none configured, so it pays nothing.
    fn harvest(&mut self, caller: Address) -> Res<i128> {
        self.require_init()?;
        let index = self.pool.as_ref().map(|p| p.index);
        match st(self.strategy.harvest(caller, index))? {
            Some(_token_id) => Ok(0),
            None => Ok(0),
        }
    }

    fn pause(&mut self, c: Address) -> Res<()> {
        self.require_init()?;
        st(self.strategy.pause(c))
    }

    fn unpause(&mut self, c: Address) -> Res<()> {
        self.require_init()?;
        st(self.strategy.unpause(c))
    }

    fn propose_admin(&mut self, c: Address, n: Address) -> Res<()> {
        self.require_init()?;
        st(self.strategy.propose_admin(c, n))
    }

    fn accept_admin(&mut self, c: Address) -> Res<()> {
        st(self.strategy.accept_admin(c))
    }

    fn set_vault(&mut self, c: Address, n: Address) -> Res<()> {
        self.require_init()?;
        st(self.strategy.set_vault(c, n))
    }

    fn set_max_utilization(&mut self, c: Address, bps: u32) -> Res<()> {
        self.require_init()?;
        st(self.strategy.set_max_utilization(c, bps))
    }

    fn set_min_backstop_coverage(&mut self, c: Address, bps: u32) -> Res<()> {
        self.require_init()?;
        st(self.strategy.set_min_backstop_coverage(c, bps))
    }

    fn set_approval_buffer(&mut self, c: Address, b: u32) -> Res<()> {
        self.require_init()?;
        st(self.strategy.set_approval_buffer(c, b))
    }

    fn set_upgrade_delay(&mut self, c: Address, d: u64) -> Res<()> {
        self.require_init()?;
        st(self.strategy.set_upgrade_delay(c, d))
    }

    fn schedule_upgrade(&mut self, c: Address, hash: WasmHash) -> Res<()> {
        self.require_init()?;
        let now = self.now;
        st(self.strategy.schedule_upgrade(c, hash, now))
    }

    fn execute_upgrade(&mut self, c: Address) -> Res<()> {
        self.require_init()?;
        self.atomically(|h| {
            if let Some((_, at)) = h.strategy.scheduled_upgrade {
                if h.strategy.admin == Some(c) && at.checked_add(h.strategy.upgrade_delay).is_none() {
                    return Err(Fail::Trap);
                }
            }
            let now = h.now;
            let hash = st(h.strategy.execute_upgrade(c, now))?;
            if !h.uploaded.contains(&hash) {
                return Err(Fail::Trap);
            }
            Ok(())
        })
    }

    fn cancel_upgrade(&mut self, c: Address) -> Res<()> {
        self.require_init()?;
        st(self.strategy.cancel_upgrade(c))
    }

    fn fund_and_deposit(&mut self, amount: i128) {
        let (vault, me) = (self.vault, self.me);
        self.transfer(vault, me, amount).unwrap();
        self.deposit(vault, amount).unwrap();
    }
}

fn hash_of(byte: u8) -> WasmHash {
    let mut half: u128 = 0;
    for _ in 0..16 {
        half = (half << 8) | byte as u128;
    }
    WasmHash::new(half, half)
}

fn denied<T: std::fmt::Debug>(r: Res<T>) {
    match r {
        Err(Fail::Strategy(StrategyError::Unauthorized)) => {},
        other => panic!("expected Unauthorized, got {other:?}"),
    }
}

// ===========================================================================
// Unit scenarios (no pool answers)
// ===========================================================================

#[test]
fn lib_test_initialize() {
    let h = Host::without_pool();
    assert_eq!(h.strategy.asset(), h.asset);
    assert_eq!(h.strategy.vault(), h.vault);
    assert_eq!(h.strategy.blend_pool(), h.pool_addr);
    assert_eq!(h.strategy.balance_of(), 0);
    assert!(!h.strategy.is_paused());
}

#[test]
fn lib_test_double_initialize_fails() {
    let mut h = Host::without_pool();
    let (a, v, s, p) = (h.admin, h.vault, h.asset, h.pool_addr);
    assert_eq!(h.strategy.initialize(a, v, s, p), Err(StrategyError::AlreadyInitialized));
}

#[test]
fn test_unauthorized_deposit() {
    let mut h = Host::without_pool();
    let random = h.gen();
    denied(h.deposit(random, 1000_0000000));
}

#[test]
fn test_pause_blocks_deposit() {
    let mut h = Host::without_pool();
    let (admin, vault) = (h.admin, h.vault);
    h.pause(admin).unwrap();
    assert!(h.strategy.is_paused());
    assert_eq!(h.deposit(vault, 1000_0000000), Err(Fail::Strategy(StrategyError::Paused)));
    h.unpause(admin).unwrap();
    assert!(!h.strategy.is_paused());
}

#[test]
fn test_health_thresholds() {
    let mut h = Host::without_pool();
    let admin = h.admin;
    h.set_max_utilization(admin, 8000).unwrap();
    h.set_min_backstop_coverage(admin, 1000).unwrap();
    // The pool does not answer, so the strategy reports unhealthy.
    assert_eq!(h.is_healthy(), Ok(false));
}

#[test]
fn test_invalid_bps_rejected() {
    let mut h = Host::without_pool();
    let admin = h.admin;
    assert_eq!(h.set_max_utilization(admin, 15000), Err(Fail::Strategy(StrategyError::InvalidBps)));
    assert_eq!(h.set_min_backstop_coverage(admin, 15000), Err(Fail::Strategy(StrategyError::InvalidBps)));
}

#[test]
fn lib_test_two_step_admin() {
    let mut h = Host::without_pool();
    let admin = h.admin;
    let new_admin = h.gen();
    h.propose_admin(admin, new_admin).unwrap();
    h.accept_admin(new_admin).unwrap();
    denied(h.pause(admin));
    h.pause(new_admin).unwrap();
    assert!(h.strategy.is_paused());
}

#[test]
fn test_set_vault() {
    let mut h = Host::without_pool();
    let admin = h.admin;
    let new_vault = h.gen();
    h.set_vault(admin, new_vault).unwrap();
    assert_eq!(h.strategy.vault(), new_vault);
}

#[test]
fn test_set_approval_buffer() {
    let mut h = Host::without_pool();
    let admin = h.admin;
    h.set_approval_buffer(admin, 500).unwrap();
    assert_eq!(
        h.strategy.events.last(),
        Some(&BlendEvent::ConfigUpdate(ConfigUpdate { key: ConfigKey::ApprovalBuf, value: 500 }))
    );
    assert_eq!(h.strategy.approval_buffer, 500);
}

// ===========================================================================
// Access control and edge cases
// ===========================================================================

#[test]
fn test_deposit_vault_only() {
    let mut h = Host::without_pool();
    let (random, admin) = (h.gen(), h.admin);
    denied(h.deposit(random, 1000_0000000));
    denied(h.deposit(admin, 1000_0000000));
}

#[test]
fn test_withdraw_vault_only() {
    let mut h = Host::without_pool();
    let (random, admin) = (h.gen(), h.admin);
    denied(h.withdraw(random, 1000_0000000));
    denied(h.withdraw(admin, 1000_0000000));
}

#[test]
fn test_emergency_withdraw_vault_or_admin() {
    let mut h = Host::without_pool();
    let (random, admin, vault) = (h.gen(), h.admin, h.vault);
    denied(h.emergency_withdraw(random));
    assert_eq!(h.emergency_withdraw(vault), Ok(0));
    assert_eq!(h.emergency_withdraw(admin), Ok(0));
}

#[test]
fn test_pause_admin_only() {
    let mut h = Host::without_pool();
    let (random, admin, vault) = (h.gen(), h.admin, h.vault);
    denied(h.pause(random));
    denied(h.pause(vault));
    assert!(h.pause(admin).is_ok());
}

#[test]
fn security_test_unpause_admin_only() {
    let mut h = Host::without_pool();
    let (random, admin, vault) = (h.gen(), h.admin, h.vault);
    h.pause(admin).unwrap();
    denied(h.unpause(random));
    denied(h.unpause(vault));
    assert!(h.unpause(admin).is_ok());
}

#[test]
fn test_set_vault_admin_only() {
    let mut h = Host::without_pool();
    let (random, admin, vault) = (h.gen(), h.admin, h.vault);
    let new_vault = h.gen();
    denied(h.set_vault(random, new_vault));
    denied(h.set_vault(vault, new_vault));
    assert!(h.set_vault(admin, new_vault).is_ok());
    assert_eq!(h.strategy.vault(), new_vault);
}

#[test]
fn test_set_max_utilization_admin_only() {
    let mut h = Host::without_pool();
    let (random, admin, vault) = (h.gen(), h.admin, h.vault);
    denied(h.set_max_utilization(random, 8000));
    denied(h.set_max_utilization(vault, 8000));
    assert!(h.set_max_utilization(admin, 8000).is_ok());
}

#[test]
fn test_set_min_backstop_admin_only() {
    let mut h = Host::without_pool();
    let (random, admin) = (h.gen(), h.admin);
    denied(h.set_min_backstop_coverage(random, 500));
    assert!(h.set_min_backstop_coverage(admin, 500).is_ok());
}

#[test]
fn test_set_approval_buffer_admin_only() {
    let mut h = Host::without_pool();
    let (random, admin) = (h.gen(), h.admin);
    denied(h.set_approval_buffer(random, 200));
    assert!(h.set_approval_buffer(admin, 200).is_ok());
}

#[test]
fn security_test_propose_admin_admin_only() {
    let mut h = Host::without_pool();
    let (random, admin, vault) = (h.gen(), h.admin, h.vault);
    let new = h.gen();
    denied(h.propose_admin(random, new));
    denied(h.propose_admin(vault, new));
    assert!(h.propose_admin(admin, new).is_ok());
}

#[test]
fn test_accept_admin_correct_address_only() {
    let mut h = Host::without_pool();
    let (random, admin) = (h.gen(), h.admin);
    let new = h.gen();
    h.propose_admin(admin, new).unwrap();
    denied(h.accept_admin(random));
    denied(h.accept_admin(admin));
    assert!(h.accept_admin(new).is_ok());
}

#[test]
fn test_accept_admin_without_proposal_rejected() {
    let mut h = Host::without_pool();
    let random = h.gen();
    denied(h.accept_admin(random));
}

#[test]
fn test_old_admin_loses_powers() {
    let mut h = Host::without_pool();
    let admin = h.admin;
    let new_admin = h.gen();
    h.propose_admin(admin, new_admin).unwrap();
    h.accept_admin(new_admin).unwrap();
    denied(h.pause(admin));
    assert!(h.pause(new_admin).is_ok());
}

#[test]
fn security_test_deposit_zero_rejected() {
    let mut h = Host::without_pool();
    let vault = h.vault;
    assert_eq!(h.deposit(vault, 0), Err(Fail::Strategy(StrategyError::ZeroAmount)));
}

#[test]
fn security_test_deposit_negative_rejected() {
    let mut h = Host::without_pool();
    let vault = h.vault;
    assert_eq!(h.deposit(vault, -1), Err(Fail::Strategy(StrategyError::ZeroAmount)));
}

#[test]
fn test_withdraw_zero_rejected() {
    let mut h = Host::without_pool();
    let vault = h.vault;
    assert_eq!(h.withdraw(vault, 0), Err(Fail::Strategy(StrategyError::ZeroAmount)));
}

#[test]
fn test_withdraw_negative_rejected() {
    let mut h = Host::without_pool();
    let vault = h.vault;
    assert_eq!(h.withdraw(vault, -1), Err(Fail::Strategy(StrategyError::ZeroAmount)));
}

#[test]
fn test_deposit_while_paused_rejected() {
    let mut h = Host::without_pool();
    let (admin, vault) = (h.admin, h.vault);
    h.pause(admin).unwrap();
    assert_eq!(h.deposit(vault, 1000_0000000), Err(Fail::Strategy(StrategyError::Paused)));
}

#[test]
fn test_max_utilization_above_10000_rejected() {
    let mut h = Host::without_pool();
    let admin = h.admin;
    assert_eq!(h.set_max_utilization(admin, 10001), Err(Fail::Strategy(StrategyError::InvalidBps)));
}

#[test]
fn test_min_backstop_above_10000_rejected() {
    let mut h = Host::without_pool();
    let admin = h.admin;
    assert_eq!(h.set_min_backstop_coverage(admin, 10001), Err(Fail::Strategy(StrategyError::InvalidBps)));
}

#[test]
fn security_test_double_initialize_rejected() {
    let mut s = BlendStrategy::new();
    let (admin, vault, asset, pool) = (Address::new(0, 0, 1), Address::new(0, 0, 2), Address::new(1, 0, 3), Address::new(1, 0, 4));
    s.initialize(admin, vault, asset, pool).unwrap();
    assert_eq!(s.initialize(admin, vault, asset, pool), Err(StrategyError::AlreadyInitialized));
}

#[test]
fn security_test_schedule_upgrade_admin_only() {
    let mut h = Host::without_pool();
    let (random, admin, vault) = (h.gen(), h.admin, h.vault);
    denied(h.schedule_upgrade(random, hash_of(1)));
    denied(h.schedule_upgrade(vault, hash_of(1)));
    assert!(h.schedule_upgrade(admin, hash_of(1)).is_ok());
}

#[test]
fn security_test_cancel_upgrade_admin_only() {
    let mut h = Host::without_pool();
    let (random, admin) = (h.gen(), h.admin);
    h.schedule_upgrade(admin, hash_of(1)).unwrap();
    denied(h.cancel_upgrade(random));
    assert!(h.cancel_upgrade(admin).is_ok());
}

#[test]
fn security_test_cancel_nonexistent_upgrade_rejected() {
    let mut h = Host::without_pool();
    let admin = h.admin;
    assert_eq!(h.cancel_upgrade(admin), Err(Fail::Strategy(StrategyError::UpgradeNotScheduled)));
}

#[test]
fn security_test_upgrade_delay_below_minimum_rejected() {
    let mut h = Host::without_pool();
    let admin = h.admin;
    assert_eq!(h.set_upgrade_delay(admin, 3599), Err(Fail::Strategy(StrategyError::InvalidBps)));
    assert!(h.set_upgrade_delay(admin, 3600).is_ok());
}

#[test]
fn test_harvest_vault_or_admin_only() {
    let mut h = Host::without_pool();
    let (random, admin, vault) = (h.gen(), h.admin, h.vault);
    denied(h.harvest(random));
    assert_eq!(h.harvest(vault), Ok(0));
    assert_eq!(h.harvest(admin), Ok(0));
}

#[test]
fn test_initial_state() {
    let h = Host::without_pool();
    assert_eq!(h.strategy.balance_of(), 0);
    assert!(!h.strategy.is_paused());
    assert_eq!(h.strategy.asset(), h.asset);
    assert_eq!(h.strategy.vault(), h.vault);
}

// ===========================================================================
// With a lending pool
// ===========================================================================

#[test]
fn test_deposit_updates_tracked_balance() {
    let mut h = Host::with_pool();
    h.fund_and_deposit(100_0000000);
    assert_eq!(h.strategy.balance_of(), 100_0000000);
}

#[test]
fn test_multiple_deposits_accumulate() {
    let mut h = Host::with_pool();
    h.fund_and_deposit(100_0000000);
    h.fund_and_deposit(50_0000000);
    assert_eq!(h.strategy.balance_of(), 150_0000000);
}

#[test]
fn test_partial_withdraw_reduces_balance() {
    let mut h = Host::with_pool();
    h.fund_and_deposit(200_0000000);
    let vault = h.vault;
    assert_eq!(h.withdraw(vault, 50_0000000), Ok(50_0000000));
    assert_eq!(h.strategy.balance_of(), 150_0000000);
}

#[test]
fn test_withdraw_more_than_tracked_clamps() {
    let mut h = Host::with_pool();
    h.fund_and_deposit(100_0000000);
    let vault = h.vault;
    assert_eq!(h.withdraw(vault, 500_0000000), Ok(100_0000000));
    assert_eq!(h.strategy.balance_of(), 0);
}

#[test]
fn integration_test_withdraw_with_zero_balance_rejected() {
    let mut h = Host::with_pool();
    let vault = h.vault;
    assert_eq!(h.withdraw(vault, 100_0000000), Err(Fail::Strategy(StrategyError::InsufficientBalance)));
}

#[test]
fn test_emergency_withdraw_by_admin_pulls_all() {
    let mut h = Host::with_pool();
    h.fund_and_deposit(300_0000000);
    let (admin, vault) = (h.admin, h.vault);
    let before = h.bal(&vault);
    let withdrawn = h.emergency_withdraw(admin).unwrap();
    assert!(withdrawn > 0);
    assert_eq!(h.strategy.balance_of(), 0);
    assert_eq!(h.bal(&vault) - before, withdrawn);
}

#[test]
fn test_emergency_withdraw_by_vault_pulls_all() {
    let mut h = Host::with_pool();
    h.fund_and_deposit(150_0000000);
    let vault = h.vault;
    let withdrawn = h.emergency_withdraw(vault).unwrap();
    assert!(withdrawn > 0);
    assert_eq!(h.strategy.balance_of(), 0);
}

#[test]
fn integration_test_emergency_withdraw_empty_returns_zero() {
    let mut h = Host::with_pool();
    let admin = h.admin;
    assert_eq!(h.emergency_withdraw(admin), Ok(0));
}

#[test]
fn test_available_liquidity_zero_when_empty() {
    let h = Host::with_pool();
    assert_eq!(h.available_liquidity(), Ok(0));
}

#[test]
fn test_available_liquidity_bounded_by_tracked_balance() {
    let mut h = Host::with_pool();
    h.fund_and_deposit(100_0000000);
    let available = h.available_liquidity().unwrap();
    assert!(available <= 100_0000000);
    assert!(available >= 0);
    assert_eq!(available, 100_0000000 - 2);
}

#[test]
fn test_is_healthy_empty_pool_passes() {
    let h = Host::with_pool();
    assert_eq!(h.is_healthy(), Ok(true));
}

#[test]
fn test_is_healthy_tight_thresholds_still_pass_on_idle_pool() {
    let mut h = Host::with_pool();
    let admin = h.admin;
    h.set_max_utilization(admin, 100).unwrap();
    assert_eq!(h.is_healthy(), Ok(true));
}

#[test]
fn test_harvest_by_vault_returns_non_negative() {
    let mut h = Host::with_pool();
    h.fund_and_deposit(100_0000000);
    let vault = h.vault;
    assert!(h.harvest(vault).unwrap() >= 0);
}

#[test]
fn test_harvest_by_admin_allowed() {
    let mut h = Host::with_pool();
    h.fund_and_deposit(100_0000000);
    let admin = h.admin;
    assert!(h.harvest(admin).unwrap() >= 0);
}

#[test]
fn test_full_round_trip() {
    let mut h = Host::with_pool();
    let amount = 500_0000000;
    h.fund_and_deposit(amount);
    let vault = h.vault;
    let before = h.bal(&vault);
    assert_eq!(h.withdraw(vault, amount), Ok(amount));
    assert_eq!(h.bal(&vault) - before, amount);
    assert_eq!(h.strategy.balance_of(), 0);
}

#[test]
fn test_execute_upgrade_before_delay_rejected() {
    let mut h = Host::with_pool();
    let admin = h.admin;
    h.schedule_upgrade(admin, hash_of(7)).unwrap();
    h.now += 172_799;
    assert_eq!(h.execute_upgrade(admin), Err(Fail::Strategy(StrategyError::UpgradeTooEarly)));
}

#[test]
fn test_execute_upgrade_after_custom_delay_reaches_deployer() {
    let mut h = Host::with_pool();
    let admin = h.admin;
    h.set_upgrade_delay(admin, 3600).unwrap();
    h.schedule_upgrade(admin, hash_of(9)).unwrap();
    h.now += 3601;
    // Past the timelock; the code was never uploaded, so the switch fails.
    assert_eq!(h.execute_upgrade(admin), Err(Fail::Trap));
    h.uploaded.push(hash_of(9));
    assert_eq!(h.execute_upgrade(admin), Ok(()));
}

#[test]
fn test_is_healthy_with_active_supply() {
    let mut h = Host::with_pool();
    let admin = h.admin;
    h.set_min_backstop_coverage(admin, 0).unwrap();
    h.fund_and_deposit(500_0000000);
    assert_eq!(h.is_healthy(), Ok(true));
}

#[test]
fn test_is_healthy_rejects_below_backstop_floor() {
    let mut h = Host::with_pool();
    h.fund_and_deposit(500_0000000);
    assert_eq!(h.is_healthy(), Ok(false));
}

#[test]
fn test_is_healthy_rejects_above_utilization_ceiling() {
    let mut h = Host::with_pool();
    let admin = h.admin;
    h.set_min_backstop_coverage(admin, 0).unwrap();
    h.fund_and_deposit(500_0000000);
    assert_eq!(h.is_healthy(), Ok(true));
    // Borrowing past the ceiling makes the pool unhealthy.
    h.set_max_utilization(admin, 0).unwrap();
    h.pool.as_mut().unwrap().reserve.d_supply = 1;
    assert_eq!(h.is_healthy(), Ok(true));
    h.pool.as_mut().unwrap().reserve.d_supply = 1_0000000;
    assert_eq!(h.is_healthy(), Ok(false));
}

#[test]
fn test_position_query_after_full_exit() {
    let mut h = Host::with_pool();
    h.fund_and_deposit(100_0000000);
    let admin = h.admin;
    h.emergency_withdraw(admin).unwrap();
    assert_eq!(h.available_liquidity(), Ok(0));
    assert_eq!(h.is_healthy(), Ok(true));
}

#[test]
fn test_set_upgrade_delay_accepts_minimum() {
    let mut h = Host::with_pool();
    let admin = h.admin;
    h.set_upgrade_delay(admin, 3600).unwrap();
    assert_eq!(h.strategy.upgrade_delay, 3600);
}

#[test]
fn test_set_upgrade_delay_accepts_large_value() {
    let mut h = Host::with_pool();
    let admin = h.admin;
    h.set_upgrade_delay(admin, 604_800).unwrap();
    assert_eq!(h.strategy.upgrade_delay, 604_800);
}

#[test]
fn test_deposit_withdraw_via_blend_pool() {
    let mut h = Host::build(true);
    let (vault, me) = (h.vault, h.me);
    h.mint(vault, 10_000_0000000);
    let deposit_amount: i128 = 1_000_0000000;
    h.transfer(vault, me, deposit_amount).unwrap();
    h.deposit(vault, deposit_amount).unwrap();
    assert_eq!(h.strategy.balance_of(), deposit_amount);
    assert_eq!(h.bal(&vault), 10_000_0000000 - deposit_amount);
    assert_eq!(h.withdraw(vault, 500_0000000), Ok(500_0000000));
    assert_eq!(h.strategy.balance_of(), 500_0000000);
    assert_eq!(h.emergency_withdraw(vault), Ok(500_0000000));
    assert_eq!(h.strategy.balance_of(), 0);
    assert_eq!(h.bal(&vault), 10_000_0000000);
}

#[test]
fn test_health_check_against_real_pool() {
    let h = Host::build(true);
    assert_eq!(h.is_healthy(), Ok(true));
}

// ===========================================================================
// Vault and Blend strategy together
// ===========================================================================

/// A vault at `host.vault` whose one strategy is `host.me`.
#[derive(Clone)]
struct Pair {
    vault: TezoroVault,
    host: Host,
    keeper: Address,
}

impl Pair {
    fn idle(&self) -> i128 {
        self.host.bal(&self.host.vault)
    }

    fn deposit(&mut self, from: Address, assets: i128) -> Res<i128> {
        let (idle, now) = (self.idle(), self.host.now);
        assert!(self.vault.deposit_fits(assets, idle, now));
        let shares = vt(self.vault.deposit(from, assets, idle, now))?;
        let vault_addr = self.host.vault;
        self.host.transfer(from, vault_addr, assets)?;
        Ok(shares)
    }

    fn allocate(&mut self, amount: i128) -> Res<()> {
        let (idle, now, keeper, strategy) = (self.idle(), self.host.now, self.keeper, self.host.me);
        assert!(self.vault.allocate_fits(keeper, strategy, amount, idle, now));
        vt(self.vault.allocate(keeper, strategy, amount, idle, now))?;
        let healthy = self.host.is_healthy()?;
        vt(self.vault.complete_allocate(keeper, strategy, amount, idle, now, healthy))?;
        let vault_addr = self.host.vault;
        self.host.transfer(vault_addr, strategy, amount)?;
        self.host.deposit(vault_addr, amount)
    }

    fn deallocate(&mut self, amount: i128) -> Res<i128> {
        let (keeper, strategy, vault_addr) = (self.keeper, self.host.me, self.host.vault);
        vt(self.vault.deallocate(keeper, strategy, amount))?;
        let withdrawn = self.host.withdraw(vault_addr, amount)?;
        assert!(self.vault.deallocation_fits(&strategy, withdrawn));
        vt(self.vault.complete_deallocate(keeper, strategy, amount, withdrawn))
    }

    fn redeem(&mut self, from: Address, shares: i128) -> Res<i128> {
        let snapshot = self.clone();
        let r = self.redeem_steps(from, shares);
        if r.is_err() {
            *self = snapshot;
        }
        r
    }

    fn redeem_steps(&mut self, from: Address, shares: i128) -> Res<i128> {
        let (idle, now, vault_addr) = (self.idle(), self.host.now, self.host.vault);
        assert!(self.vault.redeem_fits(&from, shares, idle, now));
        let mut flow = vt(self.vault.redeem(from, shares, idle, now))?;
        loop {
            match flow.next_step(&self.vault) {
                RedeemStep::QueryLiquidity(_) => {
                    let available = self.host.available_liquidity()?;
                    flow.on_liquidity(&self.vault, available);
                },
                RedeemStep::Withdraw(_, amount) => {
                    let withdrawn = self.host.withdraw(vault_addr, amount)?;
                    assert!(self.vault.redeem_withdrawal_fits(&flow, withdrawn));
                    self.vault.on_redeem_withdrawn(&mut flow, withdrawn);
                },
                RedeemStep::CheckIdle | RedeemStep::Settle => {
                    let idle_after = self.idle();
                    let assets = vt(self.vault.redeem_settle(flow, idle_after))?;
                    self.host.transfer(vault_addr, from, assets)?;
                    return Ok(assets);
                },
            }
        }
    }
}

fn pair() -> (Pair, Address) {
    pair_with(1500, 300)
}

fn pair_with(fee_bps: u32, buffer_bps: u32) -> (Pair, Address) {
    let mut host = Host::build(true);
    let admin = host.admin;
    let keeper = Address::new(0, 1, 1);
    let mut vault = TezoroVault::new();
    vault
        .initialize(admin, host.asset, keeper, Address::new(0, 1, 2), Address::new(0, 1, 3), fee_bps, buffer_bps, "Tezoro USDC-A".to_string(), "tUSDC-A".to_string())
        .unwrap();
    let strategy = host.me;
    vault.add_strategy(admin, strategy).unwrap();
    let user = Address::new(0, 1, 4);
    host.mint(user, 10_000_0000000);
    (Pair { vault, host, keeper }, user)
}

#[test]
fn test_vault_strategy_e2e() {
    let (mut p, user) = pair();
    let shares = p.deposit(user, 5_000_0000000).unwrap();
    assert!(shares > 0);
    let strategy = p.host.me;
    assert_eq!(p.vault.total_assets(p.idle(), 0), 5_000_0000000);
    p.allocate(3_000_0000000).unwrap();
    assert_eq!(p.host.strategy.balance_of(), 3_000_0000000);
    assert_eq!(p.vault.tracked_balance(&strategy), 3_000_0000000);
    assert_eq!(p.vault.total_assets(p.idle(), 0), 5_000_0000000);
    assert_eq!(p.deallocate(1_000_0000000), Ok(1_000_0000000));
    assert_eq!(p.host.strategy.balance_of(), 2_000_0000000);
    assert_eq!(p.vault.tracked_balance(&strategy), 2_000_0000000);
    p.deallocate(2_000_0000000).unwrap();
    assert_eq!(p.host.strategy.balance_of(), 0);
    let user_shares = p.vault.balance(&user);
    assert_eq!(p.redeem(user, user_shares), Ok(5_000_0000000));
}

#[test]
fn test_vault_strategy_blend_flow() {
    let unit: i128 = 10_000_000;
    let (mut p, _) = pair_with(1500, 500);
    let alice = Address::new(0, 1, 9);
    p.host.mint(alice, 100_000 * unit);
    let shares = p.deposit(alice, 100_000 * unit).unwrap();
    assert!(shares > 0);
    let pool_addr = p.host.pool_addr;
    let pool_before = p.host.bal(&pool_addr);
    p.allocate(80_000 * unit).unwrap();
    assert_eq!(p.host.bal(&pool_addr) - pool_before, 80_000 * unit);
    assert_eq!(p.vault.total_assets(p.idle(), 0), 100_000 * unit);
    assert_eq!(p.deallocate(30_000 * unit), Ok(30_000 * unit));
    // The pool quotes the remaining position less its rounding margin, so a
    // full exit falls short; everything but that margin can leave.
    let alice_shares = p.vault.balance(&alice);
    assert_eq!(p.redeem(alice, alice_shares), Err(Fail::Vault(VaultError::InsufficientAssets)));
    let most = p.vault.convert_to_shares(100_000 * unit - 2, p.idle(), 0);
    assert_eq!(p.redeem(alice, most), Ok(100_000 * unit - 2));
}

#[test]
fn vault_redeem_pulls_from_blend_pool_less_margin() {
    let (mut p, user) = pair();
    let admin = p.host.admin;
    p.host.set_min_backstop_coverage(admin, 0).unwrap();
    let shares = p.deposit(user, 5_000_0000000).unwrap();
    p.allocate(4_000_0000000).unwrap();
    // Idle 1000 covers part; the pool quotes its position less two units,
    // so a full exit falls two units short.
    assert_eq!(p.redeem(user, shares), Err(Fail::Vault(VaultError::InsufficientAssets)));
    let half = p.vault.convert_to_shares(2_000_0000000, p.idle(), 0);
    assert_eq!(p.redeem(user, half), Ok(2_000_0000000));
    assert_eq!(p.host.strategy.balance_of(), 3_000_0000000);
}

#[test]
fn allocation_refused_while_pool_unhealthy() {
    let (mut p, user) = pair();
    p.deposit(user, 5_000_0000000).unwrap();
    p.host.pool.as_mut().unwrap().reserve.b_supply = 1_000;
    assert_eq!(p.allocate(1_000_0000000), Err(Fail::Vault(VaultError::StrategyUnhealthy)));
}

// ===========================================================================
// Exact values of the pure parts
// ===========================================================================

#[test]
fn rounding_margin_values() {
    assert_eq!(apply_rounding_margin(10), 8);
    assert_eq!(apply_rounding_margin(2), 0);
    assert_eq!(apply_rounding_margin(1), 0);
    assert_eq!(apply_rounding_margin(-5), 0);
}

#[test]
fn deposit_builds_supply_request() {
    let mut s = BlendStrategy::new();
    let (admin, vault, asset, pool) = (Address::new(0, 0, 1), Address::new(0, 0, 2), Address::new(1, 0, 3), Address::new(1, 0, 4));
    s.initialize(admin, vault, asset, pool).unwrap();
    let supply = s.deposit(vault, 70, 1000).unwrap();
    assert_eq!(supply.approval_ledger, 1000 + DEFAULT_APPROVAL_BUFFER);
    assert_eq!(supply.request.request_type, REQUEST_SUPPLY_COLLATERAL);
    assert_eq!(supply.request.address, asset);
    assert_eq!(supply.request.amount, 70);
    assert_eq!(s.events.last(), Some(&BlendEvent::Deposit(Deposit { amount: 70 })));
    let payout = s.withdraw(vault, 100).unwrap();
    assert_eq!(payout.request.amount, 70);
    assert_eq!(payout.recipient, vault);
    assert_eq!(s.events.last(), Some(&BlendEvent::Withdraw(Withdraw { amount: 70, requested: 100 })));
}

#[test]
fn liquidity_capped_by_pool_free_funds() {
    let mut h = Host::with_pool();
    h.fund_and_deposit(1_000);
    let p = h.pool.as_mut().unwrap();
    // 900 of the 1000 supplied is borrowed out.
    p.reserve.d_supply = 900;
    assert_eq!(h.available_liquidity(), Ok(98));
    // A pool that cannot be read falls back to the tracked balance.
    h.pool = None;
    assert_eq!(h.available_liquidity(), Ok(998));
}

#[test]
fn position_value_uses_b_rate() {
    let mut h = Host::with_pool();
    h.fund_and_deposit(1_000);
    let reserve = ReserveData { b_rate: 1_100_000_000_000, ..h.reserve().unwrap() };
    assert_eq!(h.strategy.query_pool_position(Some(reserve), Some(1_000)), 1_100);
    assert_eq!(h.strategy.query_pool_position(Some(reserve), None), 1_000);
    assert_eq!(h.strategy.query_pool_position(None, Some(5)), 1_000);
    assert_eq!(h.strategy.query_pool_position(Some(reserve), Some(0)), 0);
}

#[test]
fn harvest_claims_twice_the_reserve_index() {
    let mut h = Host::with_pool();
    let vault = h.vault;
    assert_eq!(h.strategy.harvest(vault, Some(3)), Ok(Some(6)));
    assert_eq!(h.strategy.harvest(vault, None), Ok(None));
    h.pool = None;
    assert_eq!(h.harvest(vault), Ok(0));
}

#[test]
fn strategy_upgrade_never_runs_when_scheduled() {
    let mut h = Host::without_pool();
    let admin = h.admin;
    h.uploaded.push(hash_of(3));
    h.set_upgrade_delay(admin, 3600).unwrap();
    h.now = 50;
    h.schedule_upgrade(admin, hash_of(3)).unwrap();
    assert_eq!(h.execute_upgrade(admin), Err(Fail::Strategy(StrategyError::UpgradeTooEarly)));
    h.now = 3650;
    assert_eq!(h.execute_upgrade(admin), Ok(()));
    assert_eq!(h.execute_upgrade(admin), Err(Fail::Strategy(StrategyError::UpgradeNotScheduled)));
}

#[test]
fn uninitialized_strategy_quotes_no_liquidity() {
    let s = BlendStrategy::new();
    assert_eq!(s.available_liquidity(None), 0);
    assert_eq!(s.balance_of(), 0);
}
