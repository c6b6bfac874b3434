//! The vault: share accounting, roles, configuration and the upgrade timelock.
use vstd::prelude::*;
use crate::address::{Address, WasmHash};
use crate::balance_table::{BalanceTable, amount_of};
use crate::vault_events::VaultEvent;

verus! {

/// Errors the vault reports.
#[derive(Clone, Copy, PartialEq, Eq, Structural, Debug)]
pub enum VaultError {
    NotInitialized,
    AlreadyInitialized,
    Unauthorized,
    Paused,
    ZeroAmount,
    InsufficientShares,
    InsufficientAssets,
    DepositCapExceeded,
    MaxStrategies,
    StrategyAlreadyActive,
    StrategyNotActive,
    InvalidBps,
    StrategyHasBalance,
    NoPendingAdmin,
    StaleAttestation,
    InvalidBalance,
    UpgradeNotScheduled,
    UpgradeTooEarly,
    IdleBufferViolation,
    NoFeesToCollect,
    StrategyUnhealthy,
}

/// At most this many strategies can be registered.
pub const MAX_STRATEGIES: usize = 20;
/// Virtual shares and assets added on both sides of every conversion, so that
/// an attacker cannot inflate the share price of a nearly empty vault.
pub const VIRTUAL_SHARES_OFFSET: i128 = 1_000_000;
/// Decimals of the share token.
pub const DECIMALS: u32 = 7;
/// Highest accepted performance fee, in basis points.
pub const MAX_PERFORMANCE_FEE_BPS: u32 = 3_000;
/// Highest accepted idle buffer, in basis points.
pub const MAX_IDLE_BUFFER_BPS: u32 = 2_000;
/// Shortest accepted upgrade delay, in seconds.
pub const MIN_UPGRADE_DELAY: u64 = 3_600;
/// Age after which a bridged-balance attestation no longer counts, by default (24 hours).
pub const DEFAULT_BRIDGED_MAX_AGE: u64 = 86_400;
/// Delay before a scheduled upgrade may run, by default (48 hours).
pub const DEFAULT_UPGRADE_DELAY: u64 = 172_800;
/// Fixed-point scale of the net asset value per share (seven decimals).
pub const NAV_PRECISION: i128 = 10_000_000;

/// The sum of the tracked balances of the strategies in `s`.
pub open spec fn sum_tracked(s: Seq<Address>, m: Map<Address, i128>) -> int
    decreases s.len(),
{
    if s.len() == 0 {
        0
    } else {
        sum_tracked(s.drop_last(), m) + amount_of(m, s.last())
    }
}

/// Every entry of `m` is non-negative.
pub open spec fn nonneg_entries(m: Map<Address, i128>) -> bool {
    forall|k: Address| #[trigger] m.contains_key(k) ==> m[k] >= 0
}

/// What the vault keeps in its ledger storage. Numeric and flag entries hold
/// the value the contract reads (their defaults where nothing was written);
/// entries the contract reads without a default are optional.
#[derive(Clone, Debug)]
pub struct TezoroVault {
    pub initialized: bool,
    pub admin: Option<Address>,
    pub pending_admin: Option<Address>,
    pub keeper: Option<Address>,
    pub guardian: Option<Address>,
    pub asset: Option<Address>,
    pub fee_recipient: Option<Address>,
    pub paused: bool,
    pub performance_fee_bps: u32,
    pub idle_buffer_bps: u32,
    /// Zero means unlimited.
    pub deposit_cap: i128,
    pub strategies: Vec<Address>,
    pub vault_name: Option<String>,
    pub vault_symbol: Option<String>,
    pub bridged_max_age: u64,
    pub upgrade_delay: u64,
    pub total_supply: i128,
    /// Net asset value per share at the last fee collection, scaled by `NAV_PRECISION`.
    pub high_water_mark: i128,
    pub bridged_balance: i128,
    pub bridged_timestamp: u64,
    /// The code hash of a scheduled upgrade and the time it was scheduled.
    pub scheduled_upgrade: Option<(WasmHash, u64)>,
    pub share_balances: BalanceTable,
    pub tracked_balances: BalanceTable,
    /// Events published so far, oldest first.
    pub events: Vec<VaultEvent>,
}

impl TezoroVault {
    /// The invariant the vault keeps: balances and totals are never negative,
    /// the share balances at hand add up to at most the total supply, no
    /// strategy is registered twice nor more than the maximum,
    /// the upgrade delay is at least the minimum, no role is held and nothing is minted
    /// before initialization, and once initialized every role is set.
    pub open spec fn wf(&self) -> bool {
        &&& self.share_balances.wf()
        &&& self.tracked_balances.wf()
        &&& nonneg_entries(self.share_balances@)
        &&& nonneg_entries(self.tracked_balances@)
        &&& self.share_balances.total() <= self.total_supply
        &&& self.total_supply >= 0
        &&& self.high_water_mark >= 0
        &&& self.bridged_balance >= 0
        &&& self.deposit_cap >= 0
        &&& self.strategies@.no_duplicates()
        &&& self.strategies@.len() <= MAX_STRATEGIES
        &&& self.upgrade_delay >= MIN_UPGRADE_DELAY
        &&& !self.initialized ==> {
            &&& self.total_supply == 0
            &&& self.admin is None
            &&& self.pending_admin is None
            &&& self.keeper is None
            &&& self.guardian is None
            &&& self.asset is None
            &&& self.fee_recipient is None
        }
        &&& self.initialized ==> {
            &&& self.admin is Some
            &&& self.keeper is Some
            &&& self.guardian is Some
            &&& self.asset is Some
            &&& self.fee_recipient is Some
        }
    }

    /// Share balance of `a`.
    pub open spec fn shares_of(&self, a: Address) -> int {
        amount_of(self.share_balances@, a)
    }

    /// Tracked balance of strategy `s`.
    pub open spec fn tracked_of(&self, s: Address) -> int {
        amount_of(self.tracked_balances@, s)
    }

    /// `s` is a registered strategy.
    pub open spec fn is_strategy(&self, s: Address) -> bool {
        self.strategies@.contains(s)
    }

    /// The bridged balance while its attestation is fresh at time `now`, else zero.
    pub open spec fn effective_bridged(&self, now: u64) -> int {
        if self.bridged_balance == 0 {
            0
        } else if now > self.bridged_timestamp && now - self.bridged_timestamp > self.bridged_max_age {
            0
        } else {
            self.bridged_balance as int
        }
    }

    /// Assets under management: the vault's idle token balance, what the
    /// strategies hold for it, and the fresh bridged balance.
    pub open spec fn assets_under_management(&self, idle: i128, now: u64) -> int {
        idle + sum_tracked(self.strategies@, self.tracked_balances@) + self.effective_bridged(now)
    }

    /// `caller` holds the admin role.
    pub open spec fn is_admin(&self, caller: Address) -> bool {
        self.admin == Some(caller)
    }

    /// `caller` holds the keeper role.
    pub open spec fn is_keeper(&self, caller: Address) -> bool {
        self.keeper == Some(caller)
    }

    /// Storage before anything was written: every entry at its default.
    pub fn new() -> (v: TezoroVault)
        ensures
            v.wf(),
            !v.initialized,
            v.admin is None,
            v.pending_admin is None,
            v.keeper is None,
            v.guardian is None,
            v.asset is None,
            v.fee_recipient is None,
            !v.paused,
            v.performance_fee_bps == 0,
            v.idle_buffer_bps == 0,
            v.deposit_cap == 0,
            v.strategies@.len() == 0,
            v.vault_name is None,
            v.vault_symbol is None,
            v.bridged_max_age == DEFAULT_BRIDGED_MAX_AGE,
            v.upgrade_delay == DEFAULT_UPGRADE_DELAY,
            v.total_supply == 0,
            v.high_water_mark == NAV_PRECISION,
            v.bridged_balance == 0,
            v.bridged_timestamp == 0,
            v.scheduled_upgrade is None,
            v.share_balances@ == Map::<Address, i128>::empty(),
            v.tracked_balances@ == Map::<Address, i128>::empty(),
            v.events@.len() == 0,
    {
        let v = TezoroVault {
            initialized: false,
            admin: None,
            pending_admin: None,
            keeper: None,
            guardian: None,
            asset: None,
            fee_recipient: None,
            paused: false,
            performance_fee_bps: 0,
            idle_buffer_bps: 0,
            deposit_cap: 0,
            strategies: Vec::new(),
            vault_name: None,
            vault_symbol: None,
            bridged_max_age: DEFAULT_BRIDGED_MAX_AGE,
            upgrade_delay: DEFAULT_UPGRADE_DELAY,
            total_supply: 0,
            high_water_mark: NAV_PRECISION,
            bridged_balance: 0,
            bridged_timestamp: 0,
            scheduled_upgrade: None,
            share_balances: BalanceTable::new(),
            tracked_balances: BalanceTable::new(),
            events: Vec::new(),
        };
        v
    }

    /// Sets up roles, fees and buffers once; later calls fail.
    pub fn initialize(
        &mut self,
        admin: Address,
        asset: Address,
        keeper: Address,
        guardian: Address,
        fee_recipient: Address,
        performance_fee_bps: u32,
        idle_buffer_bps: u32,
        name: String,
        symbol: String,
    ) -> (r: Result<(), VaultError>)
        requires
            old(self).wf(),
        ensures
            final(self).wf(),
            old(self).initialized ==> r == Err::<(), VaultError>(VaultError::AlreadyInitialized),
            !old(self).initialized && performance_fee_bps > MAX_PERFORMANCE_FEE_BPS ==> r == Err::<(), VaultError>(VaultError::InvalidBps),
            !old(self).initialized && performance_fee_bps <= MAX_PERFORMANCE_FEE_BPS && idle_buffer_bps > MAX_IDLE_BUFFER_BPS
                ==> r == Err::<(), VaultError>(VaultError::InvalidBps),
            !old(self).initialized && performance_fee_bps <= MAX_PERFORMANCE_FEE_BPS && idle_buffer_bps <= MAX_IDLE_BUFFER_BPS
                ==> r == Ok::<(), VaultError>(()),
            r is Err ==> *final(self) == *old(self),
            r is Ok ==> {
                &&& !old(self).initialized
                &&& performance_fee_bps <= MAX_PERFORMANCE_FEE_BPS
                &&& idle_buffer_bps <= MAX_IDLE_BUFFER_BPS
                &&& final(self).initialized
                &&& final(self).admin == Some(admin)
                &&& final(self).keeper == Some(keeper)
                &&& final(self).guardian == Some(guardian)
                &&& final(self).asset == Some(asset)
                &&& final(self).fee_recipient == Some(fee_recipient)
                &&& final(self).performance_fee_bps == performance_fee_bps
                &&& final(self).idle_buffer_bps == idle_buffer_bps
                &&& !final(self).paused
                &&& final(self).deposit_cap == 0
                &&& final(self).strategies@.len() == 0
                &&& final(self).vault_name == Some(name)
                &&& final(self).vault_symbol == Some(symbol)
                &&& final(self).bridged_max_age == DEFAULT_BRIDGED_MAX_AGE
                &&& final(self).upgrade_delay == DEFAULT_UPGRADE_DELAY
                &&& final(self).total_supply == 0
                &&& final(self).high_water_mark == NAV_PRECISION
                &&& final(self).bridged_balance == 0
                &&& final(self).bridged_timestamp == 0
                &&& final(self).pending_admin == old(self).pending_admin
                &&& final(self).scheduled_upgrade == old(self).scheduled_upgrade
                &&& final(self).share_balances@ == old(self).share_balances@
                &&& final(self).tracked_balances@ == old(self).tracked_balances@
                &&& final(self).events@ == old(self).events@
            },
    {
        if self.initialized {
            return Err(VaultError::AlreadyInitialized);
        }
        if performance_fee_bps > MAX_PERFORMANCE_FEE_BPS {
            return Err(VaultError::InvalidBps);
        }
        if idle_buffer_bps > MAX_IDLE_BUFFER_BPS {
            return Err(VaultError::InvalidBps);
        }
        self.initialized = true;
        self.admin = Some(admin);
        self.keeper = Some(keeper);
        self.guardian = Some(guardian);
        self.asset = Some(asset);
        self.fee_recipient = Some(fee_recipient);
        self.performance_fee_bps = performance_fee_bps;
        self.idle_buffer_bps = idle_buffer_bps;
        self.paused = false;
        self.deposit_cap = 0;
        self.strategies = Vec::new();
        self.vault_name = Some(name);
        self.vault_symbol = Some(symbol);
        self.bridged_max_age = DEFAULT_BRIDGED_MAX_AGE;
        self.upgrade_delay = DEFAULT_UPGRADE_DELAY;
        self.total_supply = 0;
        self.high_water_mark = NAV_PRECISION;
        self.bridged_balance = 0;
        self.bridged_timestamp = 0;
        Ok(())
    }
}

} // verus!
