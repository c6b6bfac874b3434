//! Events the vault publishes, as values.
use vstd::prelude::*;
use crate::address::{Address, WasmHash};

verus! {

/// Shares minted for a deposit.
#[derive(Clone, Copy, PartialEq, Eq, Structural, Debug)]
pub struct Deposit {
    pub from: Address,
    pub assets: i128,
    pub shares: i128,
}

/// Shares burned for a redemption.
#[derive(Clone, Copy, PartialEq, Eq, Structural, Debug)]
pub struct Redeem {
    pub from: Address,
    pub shares: i128,
    pub assets: i128,
}

/// Shares moved between holders.
#[derive(Clone, Copy, PartialEq, Eq, Structural, Debug)]
pub struct Transfer {
    pub from: Address,
    pub to: Address,
    pub amount: i128,
}

/// A strategy was registered.
#[derive(Clone, Copy, PartialEq, Eq, Structural, Debug)]
pub struct StrategyAdd {
    pub strategy: Address,
}

/// A strategy was unregistered.
#[derive(Clone, Copy, PartialEq, Eq, Structural, Debug)]
pub struct StrategyRemove {
    pub strategy: Address,
}

/// Deposits were paused.
#[derive(Clone, Copy, PartialEq, Eq, Structural, Debug)]
pub struct Pause {
    pub caller: Address,
}

/// Deposits were resumed.
#[derive(Clone, Copy, PartialEq, Eq, Structural, Debug)]
pub struct Unpause {
    pub caller: Address,
}

/// A new bridged-balance attestation.
#[derive(Clone, Copy, PartialEq, Eq, Structural, Debug)]
pub struct BridgedUpdate {
    pub balance: i128,
    pub timestamp: u64,
}

/// A strategy's tracked balance was set by the keeper.
#[derive(Clone, Copy, PartialEq, Eq, Structural, Debug)]
pub struct TrackedUpdate {
    pub strategy: Address,
    pub balance: i128,
}

/// The contract code was replaced.
#[derive(Clone, Copy, PartialEq, Eq, Structural, Debug)]
pub struct Upgrade {
    pub new_wasm_hash: WasmHash,
}

/// The operational role whose holder changed.
#[derive(Clone, Copy, PartialEq, Eq, Structural, Debug)]
pub enum Role {
    Keeper,
    Guardian,
}

/// A role was given to a new address.
#[derive(Clone, Copy, PartialEq, Eq, Structural, Debug)]
pub struct SetRole {
    pub role: Role,
    pub new_address: Address,
}

/// The deposit cap changed.
#[derive(Clone, Copy, PartialEq, Eq, Structural, Debug)]
pub struct DepositCapUpdate {
    pub cap: i128,
}

/// The admin proposed a successor.
#[derive(Clone, Copy, PartialEq, Eq, Structural, Debug)]
pub struct AdminProposed {
    pub current: Address,
    pub proposed: Address,
}

/// The proposed admin took over.
#[derive(Clone, Copy, PartialEq, Eq, Structural, Debug)]
pub struct AdminAccepted {
    pub new_admin: Address,
}

/// Idle funds were deployed into a strategy.
#[derive(Clone, Copy, PartialEq, Eq, Structural, Debug)]
pub struct Allocate {
    pub strategy: Address,
    pub amount: i128,
}

/// Funds came back from a strategy.
#[derive(Clone, Copy, PartialEq, Eq, Structural, Debug)]
pub struct Deallocate {
    pub strategy: Address,
    pub amount: i128,
}

/// A code upgrade was scheduled.
#[derive(Clone, Copy, PartialEq, Eq, Structural, Debug)]
pub struct UpgradeScheduled {
    pub wasm_hash: WasmHash,
    pub execute_after: u64,
}

/// A scheduled code upgrade was cancelled.
#[derive(Clone, Copy, PartialEq, Eq, Structural, Debug)]
pub struct UpgradeCancelled {}

/// Performance fees were minted as shares.
#[derive(Clone, Copy, PartialEq, Eq, Structural, Debug)]
pub struct FeesCollected {
    pub fee_shares: i128,
    pub new_hwm: i128,
}

/// Any event the vault publishes.
#[derive(Clone, Copy, PartialEq, Eq, Structural, Debug)]
pub enum VaultEvent {
    Deposit(Deposit),
    Redeem(Redeem),
    Transfer(Transfer),
    StrategyAdd(StrategyAdd),
    StrategyRemove(StrategyRemove),
    Pause(Pause),
    Unpause(Unpause),
    BridgedUpdate(BridgedUpdate),
    TrackedUpdate(TrackedUpdate),
    Upgrade(Upgrade),
    SetRole(SetRole),
    DepositCapUpdate(DepositCapUpdate),
    AdminProposed(AdminProposed),
    AdminAccepted(AdminAccepted),
    Allocate(Allocate),
    Deallocate(Deallocate),
    UpgradeScheduled(UpgradeScheduled),
    UpgradeCancelled(UpgradeCancelled),
    FeesCollected(FeesCollected),
}

} // verus!
