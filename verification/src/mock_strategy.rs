//! A test double of a strategy: it holds the tokens the vault sends it and
//! lets its admin fake yield and health.
use vstd::prelude::*;
use crate::address::Address;
use crate::common::StrategyError;

verus! {

/// Tokens deployed.
#[derive(Clone, Copy, PartialEq, Eq, Structural, Debug)]
pub struct DepositEvent {
    pub amount: i128,
}

/// Tokens returned to the vault.
#[derive(Clone, Copy, PartialEq, Eq, Structural, Debug)]
pub struct WithdrawEvent {
    pub amount: i128,
}

/// Everything returned to the vault.
#[derive(Clone, Copy, PartialEq, Eq, Structural, Debug)]
pub struct EmergencyWithdrawEvent {
    pub amount: i128,
}

/// Any event the mock strategy publishes.
#[derive(Clone, Copy, PartialEq, Eq, Structural, Debug)]
pub enum MockEvent {
    Deposit(DepositEvent),
    Withdraw(WithdrawEvent),
    EmergencyWithdraw(EmergencyWithdrawEvent),
}

/// What the mock strategy keeps in its ledger storage.
#[derive(Clone, Debug)]
pub struct MockStrategy {
    pub initialized: bool,
    pub admin: Option<Address>,
    pub vault: Option<Address>,
    pub asset: Option<Address>,
    /// Tracked balance (zero when never written).
    pub balance: i128,
    /// Health flag; `None` when never written, which reads as healthy.
    pub healthy: Option<bool>,
    /// Events published so far, oldest first.
    pub events: Vec<MockEvent>,
}

impl MockStrategy {
    /// The mock has an admin, vault and asset exactly when initialized.
    pub open spec fn wf(&self) -> bool {
        &&& self.initialized ==> self.admin is Some && self.vault is Some && self.asset is Some
        &&& !self.initialized ==> self.admin is None && self.vault is None && self.asset is None
    }

    /// `caller` is the vault the mock serves.
    pub open spec fn is_vault(&self, caller: Address) -> bool {
        self.vault == Some(caller)
    }

    /// `caller` holds the admin role.
    pub open spec fn is_admin(&self, caller: Address) -> bool {
        self.admin == Some(caller)
    }

    /// Storage before anything was written.
    pub fn new() -> (s: MockStrategy)
        ensures
            s.wf(),
            !s.initialized,
            s.admin is None,
            s.vault is None,
            s.asset is None,
            s.balance == 0,
            s.healthy is None,
            s.events@.len() == 0,
    {
        MockStrategy { initialized: false, admin: None, vault: None, asset: None, balance: 0, healthy: None, events: Vec::new() }
    }

    /// Sets up admin, vault and asset once, healthy and empty.
    pub fn initialize(&mut self, admin: Address, vault: Address, asset: Address) -> (r: Result<(), StrategyError>)
        requires
            old(self).wf(),
        ensures
            final(self).wf(),
            old(self).initialized ==> r == Err::<(), StrategyError>(StrategyError::AlreadyInitialized),
            !old(self).initialized ==> r == Ok::<(), StrategyError>(()),
            r is Err ==> *final(self) == *old(self),
            r is Ok ==> *final(self) == (MockStrategy {
                initialized: true,
                admin: Some(admin),
                vault: Some(vault),
                asset: Some(asset),
                healthy: Some(true),
                balance: 0,
                ..*old(self)
            }),
    {
        if self.initialized {
            return Err(StrategyError::AlreadyInitialized);
        }
        self.initialized = true;
        self.admin = Some(admin);
        self.vault = Some(vault);
        self.asset = Some(asset);
        self.healthy = Some(true);
        self.balance = 0;
        Ok(())
    }

    /// Counts `amount` the vault already transferred (vault only).
    pub fn deposit(&mut self, caller: Address, amount: i128) -> (r: Result<(), StrategyError>)
        requires
            old(self).wf(),
            old(self).initialized,
            old(self).is_vault(caller) && amount > 0 ==> old(self).balance + amount <= i128::MAX,
        ensures
            final(self).wf(),
            !old(self).is_vault(caller) ==> r == Err::<(), StrategyError>(StrategyError::Unauthorized),
            old(self).is_vault(caller) && amount <= 0 ==> r == Err::<(), StrategyError>(StrategyError::ZeroAmount),
            old(self).is_vault(caller) && amount > 0 ==> r == Ok::<(), StrategyError>(()),
            r is Err ==> *final(self) == *old(self),
            r is Ok ==> {
                &&& final(self).events@ == old(self).events@.push(MockEvent::Deposit(DepositEvent { amount }))
                &&& *final(self) == (MockStrategy {
                    balance: (old(self).balance + amount) as i128,
                    events: final(self).events,
                    ..*old(self)
                })
            },
    {
        if Some(caller) != self.vault {
            return Err(StrategyError::Unauthorized);
        }
        if amount <= 0 {
            return Err(StrategyError::ZeroAmount);
        }
        let balance = self.balance;
        self.balance = balance + amount;
        self.events.push(MockEvent::Deposit(DepositEvent { amount }));
        Ok(())
    }

    /// Returns up to `amount`, never more than the balance, to the vault
    /// (vault only); the caller sends the returned amount of tokens.
    pub fn withdraw(&mut self, caller: Address, amount: i128) -> (r: Result<i128, StrategyError>)
        requires
            old(self).wf(),
            old(self).initialized,
        ensures
            final(self).wf(),
            ({
                let w = if amount > old(self).balance { old(self).balance } else { amount };
                &&& !old(self).is_vault(caller) ==> r == Err::<i128, StrategyError>(StrategyError::Unauthorized)
                &&& old(self).is_vault(caller) && amount <= 0 ==> r == Err::<i128, StrategyError>(StrategyError::ZeroAmount)
                &&& old(self).is_vault(caller) && amount > 0 && w == 0
                    ==> r == Err::<i128, StrategyError>(StrategyError::InsufficientBalance)
                &&& old(self).is_vault(caller) && amount > 0 && w != 0 ==> r == Ok::<i128, StrategyError>(w as i128)
                &&& r is Err ==> *final(self) == *old(self)
                &&& r is Ok ==> {
                    &&& final(self).events@ == old(self).events@.push(MockEvent::Withdraw(WithdrawEvent { amount: w as i128 }))
                    &&& *final(self) == (MockStrategy {
                        balance: (old(self).balance - w) as i128,
                        events: final(self).events,
                        ..*old(self)
                    })
                }
            }),
    {
        if Some(caller) != self.vault {
            return Err(StrategyError::Unauthorized);
        }
        if amount <= 0 {
            return Err(StrategyError::ZeroAmount);
        }
        let balance = self.balance;
        let withdraw_amount = if amount > balance {
            balance
        } else {
            amount
        };
        if withdraw_amount == 0 {
            return Err(StrategyError::InsufficientBalance);
        }
        self.balance = balance - withdraw_amount;
        self.events.push(MockEvent::Withdraw(WithdrawEvent { amount: withdraw_amount }));
        Ok(withdraw_amount)
    }

    /// Returns the whole balance to the vault (vault only); nothing happens
    /// when it is zero.
    pub fn emergency_withdraw(&mut self, caller: Address) -> (r: Result<i128, StrategyError>)
        requires
            old(self).wf(),
            old(self).initialized,
        ensures
            final(self).wf(),
            !old(self).is_vault(caller) ==> r == Err::<i128, StrategyError>(StrategyError::Unauthorized),
            old(self).is_vault(caller) ==> r == Ok::<i128, StrategyError>(old(self).balance),
            r is Err || old(self).balance == 0 ==> *final(self) == *old(self),
            r is Ok && old(self).balance != 0 ==> {
                &&& final(self).events@ == old(self).events@.push(
                    MockEvent::EmergencyWithdraw(EmergencyWithdrawEvent { amount: old(self).balance }))
                &&& *final(self) == (MockStrategy { balance: 0, events: final(self).events, ..*old(self) })
            },
    {
        if Some(caller) != self.vault {
            return Err(StrategyError::Unauthorized);
        }
        let balance = self.balance;
        if balance == 0 {
            return Ok(0);
        }
        self.balance = 0;
        self.events.push(MockEvent::EmergencyWithdraw(EmergencyWithdrawEvent { amount: balance }));
        Ok(balance)
    }

    /// The tracked balance.
    pub fn balance_of(&self) -> (r: i128)
        ensures
            r == self.balance,
    {
        self.balance
    }

    /// Everything tracked is available.
    pub fn available_liquidity(&self) -> (r: i128)
        ensures
            r == self.balance,
    {
        self.balance_of()
    }

    /// The health flag; healthy when never set.
    pub fn is_healthy(&self) -> (r: bool)
        ensures
            r == (match self.healthy {
                Some(h) => h,
                None => true,
            }),
    {
        match self.healthy {
            Some(h) => h,
            None => true,
        }
    }

    /// The underlying asset.
    pub fn asset(&self) -> (r: Address)
        requires
            self.wf(),
            self.initialized,
        ensures
            self.asset == Some(r),
    {
        self.asset.unwrap()
    }

    /// The vault the mock serves.
    pub fn vault(&self) -> (r: Address)
        requires
            self.wf(),
            self.initialized,
        ensures
            self.vault == Some(r),
    {
        self.vault.unwrap()
    }

    /// Fakes yield by raising the balance by `amount` (admin only); the
    /// matching tokens must be sent separately.
    pub fn simulate_yield(&mut self, caller: Address, amount: i128) -> (r: Result<(), StrategyError>)
        requires
            old(self).wf(),
            old(self).initialized,
            old(self).is_admin(caller) ==> i128::MIN <= old(self).balance + amount <= i128::MAX,
        ensures
            final(self).wf(),
            !old(self).is_admin(caller) ==> r == Err::<(), StrategyError>(StrategyError::Unauthorized),
            old(self).is_admin(caller) ==> r == Ok::<(), StrategyError>(()),
            r is Err ==> *final(self) == *old(self),
            r is Ok ==> *final(self) == (MockStrategy { balance: (old(self).balance + amount) as i128, ..*old(self) }),
    {
        if Some(caller) != self.admin {
            return Err(StrategyError::Unauthorized);
        }
        let balance = self.balance;
        self.balance = balance + amount;
        Ok(())
    }

    /// Sets the health flag (admin only).
    pub fn set_healthy(&mut self, caller: Address, healthy: bool) -> (r: Result<(), StrategyError>)
        requires
            old(self).wf(),
            old(self).initialized,
        ensures
            final(self).wf(),
            !old(self).is_admin(caller) ==> r == Err::<(), StrategyError>(StrategyError::Unauthorized),
            old(self).is_admin(caller) ==> r == Ok::<(), StrategyError>(()),
            r is Err ==> *final(self) == *old(self),
            r is Ok ==> *final(self) == (MockStrategy { healthy: Some(healthy), ..*old(self) }),
    {
        if Some(caller) != self.admin {
            return Err(StrategyError::Unauthorized);
        }
        self.healthy = Some(healthy);
        Ok(())
    }
}

} // verus!
