//! The test-double strategy, driven with a token ledger beside it.

use std::collections::HashMap;
use tezoro::address::Address;
use tezoro::common::StrategyError;
use tezoro::mock_strategy::{MockStrategy, MockEvent, DepositEvent, WithdrawEvent, EmergencyWithdrawEvent};

#[derive(Debug, Clone, Copy, PartialEq)]
enum Fail {
    Strategy(StrategyError),
    Trap,
}

struct Host {
    mock: MockStrategy,
    me: Address,
    admin: Address,
    vault: Address,
    asset: Address,
    tokens: HashMap<Address, i128>,
}

impl Host {
    fn new() -> Host {
        let mut h = Host {
            mock: MockStrategy::new(),
            me: Address::new(1, 0, 1),
            admin: Address::new(0, 0, 2),
            vault: Address::new(0, 0, 3),
            asset: Address::new(1, 0, 4),
            tokens: HashMap::new(),
        };
        let (a, v, s) = (h.admin, h.vault, h.asset);
        h.mock.initialize(a, v, s).unwrap();
        h
    }

    fn bal(&self, a: &Address) -> i128 {
        *self.tokens.get(a).unwrap_or(&0)
    }

    fn mint(&mut self, to: Address, amount: i128) {
        *self.tokens.entry(to).or_insert(0) += amount;
    }

    fn transfer(&mut self, from: Address, to: Address, amount: i128) -> Result<(), Fail> {
        let fb = self.bal(&from);
        if amount < 0 || fb < amount {
            return Err(Fail::Trap);
        }
        self.tokens.insert(from, fb - amount);
        let tb = self.bal(&to);
        self.tokens.insert(to, tb + amount);
        Ok(())
    }

    fn deposit(&mut self, caller: Address, amount: i128) -> Result<(), Fail> {
        self.mock.deposit(caller, amount).map_err(Fail::Strategy)
    }

    fn withdraw(&mut self, caller: Address, amount: i128) -> Result<i128, Fail> {
        let saved = self.mock.clone();
        let w = self.mock.withdraw(caller, amount).map_err(Fail::Strategy)?;
        let me = self.me;
        if let Err(e) = self.transfer(me, caller, w) {
            self.mock = saved;
            return Err(e);
        }
        Ok(w)
    }

    fn emergency_withdraw(&mut self, caller: Address) -> Result<i128, Fail> {
        let saved = self.mock.clone();
        let w = self.mock.emergency_withdraw(caller).map_err(Fail::Strategy)?;
        if w != 0 {
            let me = self.me;
            if let Err(e) = self.transfer(me, caller, w) {
                self.mock = saved;
                return Err(e);
            }
        }
        Ok(w)
    }
}

#[test]
fn test_deposit_withdraw_cycle() {
    let mut h = Host::new();
    let (vault, me, admin) = (h.vault, h.me, h.admin);
    h.mint(vault, 10_000_0000000);
    h.transfer(vault, me, 1000_0000000).unwrap();
    h.deposit(vault, 1000_0000000).unwrap();
    assert_eq!(h.mock.balance_of(), 1000_0000000);
    assert_eq!(h.bal(&me), 1000_0000000);
    h.mint(me, 50_0000000);
    h.mock.simulate_yield(admin, 50_0000000).unwrap();
    assert_eq!(h.mock.balance_of(), 1050_0000000);
    assert_eq!(h.bal(&me), 1050_0000000);
    assert_eq!(h.withdraw(vault, 1050_0000000), Ok(1050_0000000));
    assert_eq!(h.mock.balance_of(), 0);
}

#[test]
fn test_health_toggle() {
    let mut h = Host::new();
    let admin = h.admin;
    assert!(h.mock.is_healthy());
    h.mock.set_healthy(admin, false).unwrap();
    assert!(!h.mock.is_healthy());
}

#[test]
fn test_emergency_withdraw() {
    let mut h = Host::new();
    let (vault, me) = (h.vault, h.me);
    h.mint(vault, 10_000_0000000);
    h.transfer(vault, me, 500_0000000).unwrap();
    h.deposit(vault, 500_0000000).unwrap();
    assert_eq!(h.emergency_withdraw(vault), Ok(500_0000000));
    assert_eq!(h.mock.balance_of(), 0);
    assert_eq!(h.bal(&vault), 10_000_0000000);
}

#[test]
fn lib_test_double_initialize_rejected() {
    let mut h = Host::new();
    let (a, v, s) = (h.admin, h.vault, h.asset);
    assert_eq!(h.mock.initialize(a, v, s), Err(StrategyError::AlreadyInitialized));
}

#[test]
fn test_deposit_zero_amount_rejected() {
    let mut h = Host::new();
    let vault = h.vault;
    assert_eq!(h.deposit(vault, 0), Err(Fail::Strategy(StrategyError::ZeroAmount)));
}

#[test]
fn test_withdraw_zero_amount_rejected() {
    let mut h = Host::new();
    let vault = h.vault;
    assert_eq!(h.withdraw(vault, 0), Err(Fail::Strategy(StrategyError::ZeroAmount)));
}

#[test]
fn lib_test_withdraw_with_zero_balance_rejected() {
    let mut h = Host::new();
    let vault = h.vault;
    assert_eq!(h.withdraw(vault, 100), Err(Fail::Strategy(StrategyError::InsufficientBalance)));
}

#[test]
fn lib_test_emergency_withdraw_empty_returns_zero() {
    let mut h = Host::new();
    let vault = h.vault;
    assert_eq!(h.emergency_withdraw(vault), Ok(0));
    assert!(h.mock.events.is_empty());
}

#[test]
fn test_deposit_unauthorized_rejected() {
    let mut h = Host::new();
    let stranger = Address::new(0, 9, 9);
    assert_eq!(h.deposit(stranger, 100), Err(Fail::Strategy(StrategyError::Unauthorized)));
}

#[test]
fn test_simulate_yield_requires_admin() {
    let mut h = Host::new();
    let stranger = Address::new(0, 9, 9);
    assert_eq!(h.mock.simulate_yield(stranger, 100), Err(StrategyError::Unauthorized));
}

#[test]
fn test_view_getters() {
    let h = Host::new();
    assert_eq!(h.mock.asset(), h.asset);
    assert_eq!(h.mock.vault(), h.vault);
    assert_eq!(h.mock.available_liquidity(), 0);
}

#[test]
fn mock_withdraw_clamps_to_balance_and_logs_events() {
    let mut h = Host::new();
    let (vault, me) = (h.vault, h.me);
    h.mint(vault, 300);
    h.transfer(vault, me, 300).unwrap();
    h.deposit(vault, 300).unwrap();
    assert_eq!(h.withdraw(vault, 1000), Ok(300));
    assert_eq!(h.mock.balance_of(), 0);
    assert_eq!(
        h.mock.events,
        vec![MockEvent::Deposit(DepositEvent { amount: 300 }), MockEvent::Withdraw(WithdrawEvent { amount: 300 })]
    );
}

#[test]
fn mock_emergency_withdraw_logs_event_and_rejects_strangers() {
    let mut h = Host::new();
    let (vault, me) = (h.vault, h.me);
    h.mint(me, 40);
    h.deposit(vault, 40).unwrap();
    assert_eq!(h.emergency_withdraw(Address::new(0, 9, 9)), Err(Fail::Strategy(StrategyError::Unauthorized)));
    assert_eq!(h.emergency_withdraw(vault), Ok(40));
    assert_eq!(h.mock.events.last(), Some(&MockEvent::EmergencyWithdraw(EmergencyWithdrawEvent { amount: 40 })));
}

#[test]
fn mock_fresh_state_reads_healthy() {
    let m = MockStrategy::new();
    assert!(m.is_healthy());
    assert_eq!(m.balance_of(), 0);
    assert_eq!(m.available_liquidity(), 0);
}
