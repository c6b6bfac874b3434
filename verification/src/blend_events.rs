//! Events the Blend strategy publishes, as values.
use vstd::prelude::*;
use crate::address::{Address, WasmHash};

verus! {

/// Funds were supplied to the pool.
#[derive(Clone, Copy, PartialEq, Eq, Structural, Debug)]
pub struct Deposit {
    pub amount: i128,
}

/// Funds were withdrawn from the pool; `requested` is what the vault asked for.
#[derive(Clone, Copy, PartialEq, Eq, Structural, Debug)]
pub struct Withdraw {
    pub amount: i128,
    pub requested: i128,
}

/// The whole pool position was pulled back to the vault.
#[derive(Clone, Copy, PartialEq, Eq, Structural, Debug)]
pub struct EmergencyWithdraw {
    pub amount: i128,
    pub caller: Address,
}

/// Deposits into the pool were paused.
#[derive(Clone, Copy, PartialEq, Eq, Structural, Debug)]
pub struct Pause {
    pub caller: Address,
}

/// Deposits into the pool were resumed.
#[derive(Clone, Copy, PartialEq, Eq, Structural, Debug)]
pub struct Unpause {
    pub caller: Address,
}

/// The setting a configuration change applies to.
#[derive(Clone, Copy, PartialEq, Eq, Structural, Debug)]
pub enum ConfigKey {
    /// Highest pool utilization still counted as healthy.
    MaxUtil,
    /// Lowest backstop coverage still counted as healthy.
    MinBackstop,
    /// Ledgers an approval to the pool stays valid.
    ApprovalBuf,
}

/// A setting changed.
#[derive(Clone, Copy, PartialEq, Eq, Structural, Debug)]
pub struct ConfigUpdate {
    pub key: ConfigKey,
    pub value: u32,
}

/// The admin role moved.
#[derive(Clone, Copy, PartialEq, Eq, Structural, Debug)]
pub struct AdminChanged {
    pub old_admin: Address,
    pub new_admin: Address,
}

/// The vault the strategy serves changed.
#[derive(Clone, Copy, PartialEq, Eq, Structural, Debug)]
pub struct VaultChanged {
    pub old_vault: Address,
    pub new_vault: Address,
}

/// The contract code was replaced.
#[derive(Clone, Copy, PartialEq, Eq, Structural, Debug)]
pub struct Upgrade {
    pub new_wasm_hash: WasmHash,
}

/// Any event the Blend strategy publishes.
#[derive(Clone, Copy, PartialEq, Eq, Structural, Debug)]
pub enum BlendEvent {
    Deposit(Deposit),
    Withdraw(Withdraw),
    EmergencyWithdraw(EmergencyWithdraw),
    Pause(Pause),
    Unpause(Unpause),
    ConfigUpdate(ConfigUpdate),
    AdminChanged(AdminChanged),
    VaultChanged(VaultChanged),
    Upgrade(Upgrade),
}

} // verus!
