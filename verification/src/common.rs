//! Items shared by every strategy contract and by the vault.
use vstd::prelude::*;

verus! {

/// Errors reported by strategy contracts.
#[derive(Clone, Copy, PartialEq, Eq, Structural, Debug)]
pub enum StrategyError {
    NotInitialized,
    AlreadyInitialized,
    Unauthorized,
    InsufficientBalance,
    ZeroAmount,
    Unhealthy,
    InvalidBps,
    Paused,
    UpgradeNotScheduled,
    UpgradeTooEarly,
}

/// Approximate ledgers per day at five seconds per ledger.
pub const LEDGERS_PER_DAY: u32 = 17_280;

/// Instance storage is extended when its time-to-live drops below about 30 days.
pub const INSTANCE_LIFETIME_THRESHOLD: u32 = LEDGERS_PER_DAY * 30;

/// Instance storage is extended to about 120 days.
pub const INSTANCE_BUMP_AMOUNT: u32 = LEDGERS_PER_DAY * 120;

/// A persistent entry is extended when its time-to-live drops below about 30 days.
pub const PERSISTENT_LIFETIME_THRESHOLD: u32 = LEDGERS_PER_DAY * 30;

/// A persistent entry is extended to about 120 days.
pub const PERSISTENT_BUMP_AMOUNT: u32 = LEDGERS_PER_DAY * 120;

/// One hundred percent, in basis points.
pub const MAX_BPS: u32 = 10_000;

} // verus!
