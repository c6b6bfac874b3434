//! The Blend v2 strategy adapter: supplies the vault's funds to a Blend
//! lending pool as collateral, withdraws them on request, judges the pool's
//! health and quotes how much can leave the pool right now.
use vstd::prelude::*;
use crate::address::{Address, WasmHash};
use crate::common::{StrategyError, MAX_BPS};
use crate::math::mul_div;
use crate::blend_events::{BlendEvent, Deposit, Withdraw, EmergencyWithdraw};

verus! {

/// Pool request type that supplies collateral.
pub const REQUEST_SUPPLY_COLLATERAL: u32 = 2;
/// Pool request type that withdraws collateral.
pub const REQUEST_WITHDRAW_COLLATERAL: u32 = 3;
/// Fixed-point scale of the pool's b-token and d-token rates (12 decimals).
pub const BLEND_RATE_SCALAR: i128 = 1_000_000_000_000;
/// Taken off every liquidity quote so that a withdrawal of exactly the quoted
/// amount does not fail on the pool rounding its b-token burn up.
pub const AVAILABLE_LIQUIDITY_ROUNDING_MARGIN: i128 = 2;
/// Highest healthy pool utilization by default (95 %).
pub const DEFAULT_MAX_UTILIZATION_BPS: u32 = 9_500;
/// Lowest healthy backstop coverage by default (5 %).
pub const DEFAULT_MIN_BACKSTOP_BPS: u32 = 500;
/// Ledgers an approval to the pool stays valid by default (about 17 minutes).
pub const DEFAULT_APPROVAL_BUFFER: u32 = 200;
/// Delay before a scheduled upgrade may run, by default (48 hours).
pub const DEFAULT_UPGRADE_DELAY: u64 = 172_800;
/// Shortest accepted upgrade delay (1 hour).
pub const MIN_UPGRADE_DELAY: u64 = 3_600;

/// What the strategy reads of the pool's reserve for its asset.
#[derive(Clone, Copy, PartialEq, Eq, Structural, Debug)]
pub struct ReserveData {
    /// b-token to underlying rate, scaled by `BLEND_RATE_SCALAR`.
    pub b_rate: i128,
    /// b-tokens outstanding.
    pub b_supply: i128,
    /// Credit owed to the backstop (negative when the backstop is depleted).
    pub backstop_credit: i128,
    /// d-token to underlying rate, scaled by `BLEND_RATE_SCALAR`.
    pub d_rate: i128,
    /// d-tokens outstanding.
    pub d_supply: i128,
}

/// A request to the pool's `submit`.
#[derive(Clone, Copy, PartialEq, Eq, Structural, Debug)]
pub struct PoolRequest {
    pub request_type: u32,
    pub address: Address,
    pub amount: i128,
}

/// A supply to the pool: approve the pool to spend `request.amount` of the
/// strategy's tokens until ledger `approval_ledger`, then submit `request`.
#[derive(Clone, Copy, PartialEq, Eq, Structural, Debug)]
pub struct Supply {
    pub approval_ledger: u32,
    pub request: PoolRequest,
}

/// A withdrawal from the pool: submit `request`, then send `request.amount`
/// of the underlying token to `recipient`.
#[derive(Clone, Copy, PartialEq, Eq, Structural, Debug)]
pub struct Payout {
    pub request: PoolRequest,
    pub recipient: Address,
}

/// `value` less the rounding margin, never below zero.
pub open spec fn spec_apply_rounding_margin(value: int) -> int {
    if value - AVAILABLE_LIQUIDITY_ROUNDING_MARGIN < 0 {
        0
    } else {
        value - AVAILABLE_LIQUIDITY_ROUNDING_MARGIN
    }
}

/// Takes the rounding margin off `value`, never going below zero.
pub fn apply_rounding_margin(value: i128) -> (r: i128)
    requires
        value - AVAILABLE_LIQUIDITY_ROUNDING_MARGIN >= i128::MIN,
    ensures
        r == spec_apply_rounding_margin(value as int),
        r >= 0,
        value >= 0 ==> r <= value,
{
    let trimmed = value - AVAILABLE_LIQUIDITY_ROUNDING_MARGIN;
    if trimmed < 0 {
        0
    } else {
        trimmed
    }
}

/// Underlying supplied to the pool: b-tokens at the b-token rate.
pub open spec fn pool_supplied(r: ReserveData) -> int {
    mul_div(r.b_supply as int, r.b_rate as int, BLEND_RATE_SCALAR as int)
}

/// Underlying borrowed from the pool: d-tokens at the d-token rate.
pub open spec fn pool_borrowed(r: ReserveData) -> int {
    mul_div(r.d_supply as int, r.d_rate as int, BLEND_RATE_SCALAR as int)
}

/// The pool is healthy: utilization (d-tokens over b-tokens) within the
/// ceiling, backstop credit not negative, and backstop coverage (credit over
/// b-tokens) at least the floor. An unreachable pool is never healthy.
pub open spec fn healthy(reserve: Option<ReserveData>, max_util_bps: u32, min_backstop_bps: u32) -> bool {
    match reserve {
        None => false,
        Some(r) => {
            &&& (r.b_supply > 0 ==> mul_div(r.d_supply as int, 10_000, r.b_supply as int) <= max_util_bps)
            &&& r.backstop_credit >= 0
            &&& (r.b_supply > 0 ==> mul_div(r.backstop_credit as int, 10_000, r.b_supply as int) >= min_backstop_bps)
        },
    }
}

/// The arithmetic of the pool-position valuation stays within `i128`.
pub open spec fn position_in_range(reserve: Option<ReserveData>, collateral: Option<i128>) -> bool {
    reserve is Some && collateral is Some && collateral->0 != 0
        ==> i128::MIN <= collateral->0 * reserve->0.b_rate <= i128::MAX
}

/// The arithmetic of the health check stays within `i128`.
pub open spec fn health_in_range(reserve: Option<ReserveData>) -> bool {
    reserve matches Some(rd) ==> {
        &&& rd.b_supply > 0 ==> i128::MIN <= rd.d_supply * 10_000 <= i128::MAX
        &&& rd.b_supply > 0 && rd.backstop_credit >= 0 ==> rd.backstop_credit * 10_000 <= i128::MAX
    }
}

/// Whether `position_in_range` holds.
pub fn position_fits(reserve: Option<ReserveData>, collateral: Option<i128>) -> (r: bool)
    ensures
        r == position_in_range(reserve, collateral),
{
    match (reserve, collateral) {
        (Some(rd), Some(b)) => b == 0 || b.checked_mul(rd.b_rate).is_some(),
        _ => true,
    }
}

/// Whether `health_in_range` holds.
pub fn health_fits(reserve: Option<ReserveData>) -> (r: bool)
    ensures
        r == health_in_range(reserve),
{
    match reserve {
        None => true,
        Some(rd) => {
            let util = rd.b_supply <= 0 || rd.d_supply.checked_mul(10_000).is_some();
            let coverage = !(rd.b_supply > 0 && rd.backstop_credit >= 0) || rd.backstop_credit.checked_mul(10_000).is_some();
            util && coverage
        },
    }
}

/// What the strategy keeps in its ledger storage. Numeric and flag entries
/// hold the value the contract reads (their defaults where nothing was
/// written); entries the contract reads without a default are optional.
#[derive(Clone, Debug)]
pub struct BlendStrategy {
    pub initialized: bool,
    pub admin: Option<Address>,
    pub pending_admin: Option<Address>,
    pub vault: Option<Address>,
    pub asset: Option<Address>,
    pub blend_pool: Option<Address>,
    pub paused: bool,
    /// Underlying the strategy believes it has supplied to the pool.
    pub tracked_balance: i128,
    pub max_utilization_bps: u32,
    pub min_backstop_bps: u32,
    pub approval_buffer: u32,
    pub upgrade_delay: u64,
    pub scheduled_upgrade: Option<(WasmHash, u64)>,
    /// Events published so far, oldest first.
    pub events: Vec<BlendEvent>,
}

impl BlendStrategy {
    /// The invariant the strategy keeps: its tracked balance is never
    /// negative, both health thresholds are within 100 %, the upgrade delay is
    /// at least the minimum, and it has an admin, vault, asset and pool exactly when
    /// initialized.
    pub open spec fn wf(&self) -> bool {
        &&& self.tracked_balance >= 0
        &&& self.max_utilization_bps <= MAX_BPS
        &&& self.min_backstop_bps <= MAX_BPS
        &&& self.upgrade_delay >= MIN_UPGRADE_DELAY
        &&& self.initialized ==> {
            &&& self.admin is Some
            &&& self.vault is Some
            &&& self.asset is Some
            &&& self.blend_pool is Some
        }
        &&& !self.initialized ==> {
            &&& self.admin is None
            &&& self.pending_admin is None
            &&& self.vault is None
            &&& self.asset is None
            &&& self.blend_pool is None
            &&& self.tracked_balance == 0
        }
    }

    /// `caller` holds the admin role.
    pub open spec fn is_admin(&self, caller: Address) -> bool {
        self.admin == Some(caller)
    }

    /// `caller` is the vault the strategy serves.
    pub open spec fn is_vault(&self, caller: Address) -> bool {
        self.vault == Some(caller)
    }

    /// Liquidity quote: zero with nothing tracked; the tracked balance less the
    /// margin when the pool cannot be read; otherwise the smaller of the
    /// tracked balance and the pool's free liquidity, less the margin.
    pub open spec fn liquidity(&self, reserve: Option<ReserveData>) -> int {
        if self.tracked_balance == 0 {
            0
        } else {
            match reserve {
                None => spec_apply_rounding_margin(self.tracked_balance as int),
                Some(r) => {
                    let available = pool_supplied(r) - pool_borrowed(r);
                    let cap = if available < self.tracked_balance { available } else { self.tracked_balance as int };
                    spec_apply_rounding_margin(cap)
                },
            }
        }
    }

    /// Value of the strategy's pool position: the tracked balance when the
    /// reserve or the positions cannot be read, otherwise its collateral
    /// b-tokens at the b-token rate.
    pub open spec fn position_value(&self, reserve: Option<ReserveData>, collateral: Option<i128>) -> int {
        match reserve {
            None => self.tracked_balance as int,
            Some(r) => match collateral {
                None => self.tracked_balance as int,
                Some(b) => if b == 0 {
                    0
                } else {
                    mul_div(b as int, r.b_rate as int, BLEND_RATE_SCALAR as int)
                },
            },
        }
    }

    /// Storage before anything was written: every entry at its default.
    pub fn new() -> (s: BlendStrategy)
        ensures
            s.wf(),
            !s.initialized,
            s.admin is None,
            s.pending_admin is None,
            s.vault is None,
            s.asset is None,
            s.blend_pool is None,
            !s.paused,
            s.tracked_balance == 0,
            s.max_utilization_bps == DEFAULT_MAX_UTILIZATION_BPS,
            s.min_backstop_bps == DEFAULT_MIN_BACKSTOP_BPS,
            s.approval_buffer == DEFAULT_APPROVAL_BUFFER,
            s.upgrade_delay == DEFAULT_UPGRADE_DELAY,
            s.scheduled_upgrade is None,
            s.events@.len() == 0,
    {
        BlendStrategy {
            initialized: false,
            admin: None,
            pending_admin: None,
            vault: None,
            asset: None,
            blend_pool: None,
            paused: false,
            tracked_balance: 0,
            max_utilization_bps: DEFAULT_MAX_UTILIZATION_BPS,
            min_backstop_bps: DEFAULT_MIN_BACKSTOP_BPS,
            approval_buffer: DEFAULT_APPROVAL_BUFFER,
            upgrade_delay: DEFAULT_UPGRADE_DELAY,
            scheduled_upgrade: None,
            events: Vec::new(),
        }
    }

    /// Sets up admin, vault, asset and pool once; later calls fail.
    pub fn initialize(&mut self, admin: Address, vault: Address, asset: Address, blend_pool: Address) -> (r: Result<(), StrategyError>)
        requires
            old(self).wf(),
        ensures
            final(self).wf(),
            old(self).initialized ==> r == Err::<(), StrategyError>(StrategyError::AlreadyInitialized),
            !old(self).initialized ==> r == Ok::<(), StrategyError>(()),
            r is Err ==> *final(self) == *old(self),
            r is Ok ==> *final(self) == (BlendStrategy {
                initialized: true,
                admin: Some(admin),
                vault: Some(vault),
                asset: Some(asset),
                blend_pool: Some(blend_pool),
                paused: false,
                max_utilization_bps: DEFAULT_MAX_UTILIZATION_BPS,
                min_backstop_bps: DEFAULT_MIN_BACKSTOP_BPS,
                approval_buffer: DEFAULT_APPROVAL_BUFFER,
                upgrade_delay: DEFAULT_UPGRADE_DELAY,
                tracked_balance: 0,
                ..*old(self)
            }),
    {
        if self.initialized {
            return Err(StrategyError::AlreadyInitialized);
        }
        self.initialized = true;
        self.admin = Some(admin);
        self.vault = Some(vault);
        self.asset = Some(asset);
        self.blend_pool = Some(blend_pool);
        self.paused = false;
        self.max_utilization_bps = DEFAULT_MAX_UTILIZATION_BPS;
        self.min_backstop_bps = DEFAULT_MIN_BACKSTOP_BPS;
        self.approval_buffer = DEFAULT_APPROVAL_BUFFER;
        self.upgrade_delay = DEFAULT_UPGRADE_DELAY;
        self.tracked_balance = 0;
        Ok(())
    }

    /// Deploys `amount` the vault already transferred to the strategy: the
    /// strategy approves the pool until `ledger_sequence` plus the approval
    /// buffer and supplies the amount as collateral (vault only, not paused).
    pub fn deposit(&mut self, caller: Address, amount: i128, ledger_sequence: u32) -> (r: Result<Supply, StrategyError>)
        requires
            old(self).wf(),
            old(self).initialized,
            old(self).is_vault(caller) && !old(self).paused && amount > 0 ==> {
                &&& ledger_sequence + old(self).approval_buffer <= u32::MAX
                &&& old(self).tracked_balance + amount <= i128::MAX
            },
        ensures
            final(self).wf(),
            !old(self).is_vault(caller) ==> r == Err::<Supply, StrategyError>(StrategyError::Unauthorized),
            old(self).is_vault(caller) && old(self).paused ==> r == Err::<Supply, StrategyError>(StrategyError::Paused),
            old(self).is_vault(caller) && !old(self).paused && amount <= 0
                ==> r == Err::<Supply, StrategyError>(StrategyError::ZeroAmount),
            old(self).is_vault(caller) && !old(self).paused && amount > 0 ==> r == Ok::<Supply, StrategyError>(Supply {
                approval_ledger: (ledger_sequence + old(self).approval_buffer) as u32,
                request: PoolRequest {
                    request_type: REQUEST_SUPPLY_COLLATERAL,
                    address: old(self).asset->0,
                    amount,
                },
            }),
            r is Err ==> *final(self) == *old(self),
            r is Ok ==> {
                &&& final(self).events@ == old(self).events@.push(BlendEvent::Deposit(Deposit { amount }))
                &&& *final(self) == (BlendStrategy {
                    tracked_balance: (old(self).tracked_balance + amount) as i128,
                    events: final(self).events,
                    ..*old(self)
                })
            },
    {
        if Some(caller) != self.vault {
            return Err(StrategyError::Unauthorized);
        }
        if self.paused {
            return Err(StrategyError::Paused);
        }
        if amount <= 0 {
            return Err(StrategyError::ZeroAmount);
        }
        let asset = self.asset.unwrap();
        let approval_ledger = ledger_sequence + self.approval_buffer;
        let request = PoolRequest { request_type: REQUEST_SUPPLY_COLLATERAL, address: asset, amount };
        let balance = self.tracked_balance;
        self.tracked_balance = balance + amount;
        self.events.push(BlendEvent::Deposit(Deposit { amount }));
        Ok(Supply { approval_ledger, request })
    }

    /// Withdraws up to `amount` from the pool to the vault, never more than
    /// the tracked balance (vault only). Allowed while paused.
    pub fn withdraw(&mut self, caller: Address, amount: i128) -> (r: Result<Payout, StrategyError>)
        requires
            old(self).wf(),
            old(self).initialized,
        ensures
            final(self).wf(),
            ({
                let w = if amount > old(self).tracked_balance { old(self).tracked_balance } else { amount };
                &&& !old(self).is_vault(caller) ==> r == Err::<Payout, StrategyError>(StrategyError::Unauthorized)
                &&& old(self).is_vault(caller) && amount <= 0 ==> r == Err::<Payout, StrategyError>(StrategyError::ZeroAmount)
                &&& old(self).is_vault(caller) && amount > 0 && w == 0
                    ==> r == Err::<Payout, StrategyError>(StrategyError::InsufficientBalance)
                &&& old(self).is_vault(caller) && amount > 0 && w != 0 ==> r == Ok::<Payout, StrategyError>(Payout {
                    request: PoolRequest {
                        request_type: REQUEST_WITHDRAW_COLLATERAL,
                        address: old(self).asset->0,
                        amount: w,
                    },
                    recipient: caller,
                })
                &&& r is Err ==> *final(self) == *old(self)
                &&& r is Ok ==> {
                    &&& 0 < w <= amount
                    &&& final(self).events@ == old(self).events@.push(
                        BlendEvent::Withdraw(Withdraw { amount: w, requested: amount }))
                    &&& *final(self) == (BlendStrategy {
                        tracked_balance: (old(self).tracked_balance - w) as i128,
                        events: final(self).events,
                        ..*old(self)
                    })
                }
            }),
    {
        if Some(caller) != self.vault {
            return Err(StrategyError::Unauthorized);
        }
        if amount <= 0 {
            return Err(StrategyError::ZeroAmount);
        }
        let balance = self.tracked_balance;
        let withdraw_amount = if amount > balance {
            balance
        } else {
            amount
        };
        if withdraw_amount == 0 {
            return Err(StrategyError::InsufficientBalance);
        }
        let asset = self.asset.unwrap();
        let request = PoolRequest { request_type: REQUEST_WITHDRAW_COLLATERAL, address: asset, amount: withdraw_amount };
        self.tracked_balance = balance - withdraw_amount;
        self.events.push(BlendEvent::Withdraw(Withdraw { amount: withdraw_amount, requested: amount }));
        Ok(Payout { request, recipient: caller })
    }

    /// The check an emergency withdrawal makes before reading the pool
    /// position: the caller is the vault or the admin.
    pub fn emergency_withdraw(&self, caller: Address) -> (r: Result<(), StrategyError>)
        requires
            self.wf(),
            self.initialized,
        ensures
            !self.is_vault(caller) && !self.is_admin(caller) ==> r == Err::<(), StrategyError>(StrategyError::Unauthorized),
            self.is_vault(caller) || self.is_admin(caller) ==> r == Ok::<(), StrategyError>(()),
    {
        if Some(caller) != self.vault && Some(caller) != self.admin {
            return Err(StrategyError::Unauthorized);
        }
        Ok(())
    }

    /// Value of the strategy's pool position, from the reserve (`None` when
    /// it cannot be read) and the strategy's collateral b-tokens in it
    /// (`None` when the positions cannot be read).
    pub fn query_pool_position(&self, reserve: Option<ReserveData>, collateral: Option<i128>) -> (r: i128)
        requires
            position_in_range(reserve, collateral),
        ensures
            r == self.position_value(reserve, collateral),
    {
        match reserve {
            None => self.tracked_balance,
            Some(rd) => match collateral {
                None => self.tracked_balance,
                Some(b_tokens) => {
                    if b_tokens == 0 {
                        0
                    } else {
                        b_tokens * rd.b_rate / BLEND_RATE_SCALAR
                    }
                },
            },
        }
    }

    /// Completes an emergency withdrawal of a position worth `position`: the
    /// same check, then the tracked balance is zero. A non-zero position is
    /// withdrawn from the pool and sent to the vault; a zero one needs nothing.
    pub fn complete_emergency_withdraw(&mut self, caller: Address, position: i128) -> (r: Result<Option<Payout>, StrategyError>)
        requires
            old(self).wf(),
            old(self).initialized,
        ensures
            final(self).wf(),
            !old(self).is_vault(caller) && !old(self).is_admin(caller)
                ==> r == Err::<Option<Payout>, StrategyError>(StrategyError::Unauthorized),
            (old(self).is_vault(caller) || old(self).is_admin(caller)) && position == 0
                ==> r == Ok::<Option<Payout>, StrategyError>(None),
            (old(self).is_vault(caller) || old(self).is_admin(caller)) && position != 0
                ==> r == Ok::<Option<Payout>, StrategyError>(Some(Payout {
                    request: PoolRequest {
                        request_type: REQUEST_WITHDRAW_COLLATERAL,
                        address: old(self).asset->0,
                        amount: position,
                    },
                    recipient: old(self).vault->0,
                })),
            r is Err ==> *final(self) == *old(self),
            r is Ok && position == 0 ==> *final(self) == (BlendStrategy { tracked_balance: 0, ..*old(self) }),
            r is Ok && position != 0 ==> {
                &&& final(self).events@ == old(self).events@.push(
                    BlendEvent::EmergencyWithdraw(EmergencyWithdraw { amount: position, caller }))
                &&& *final(self) == (BlendStrategy { tracked_balance: 0, events: final(self).events, ..*old(self) })
            },
    {
        match self.emergency_withdraw(caller) {
            Err(e) => {
                return Err(e);
            },
            Ok(()) => {},
        }
        if position == 0 {
            self.tracked_balance = 0;
            return Ok(None);
        }
        let asset = self.asset.unwrap();
        let vault = self.vault.unwrap();
        let request = PoolRequest { request_type: REQUEST_WITHDRAW_COLLATERAL, address: asset, amount: position };
        self.tracked_balance = 0;
        self.events.push(BlendEvent::EmergencyWithdraw(EmergencyWithdraw { amount: position, caller }));
        Ok(Some(Payout { request, recipient: vault }))
    }

    /// Whether the pool is healthy given its reserve data (`None` when the
    /// pool cannot be read).
    pub fn is_healthy(&self, reserve: Option<ReserveData>) -> (r: bool)
        requires
            self.initialized,
            health_in_range(reserve),
        ensures
            r == healthy(reserve, self.max_utilization_bps, self.min_backstop_bps),
    {
        let rd = match reserve {
            Some(rd) => rd,
            None => {
                return false;
            },
        };
        let max_util_bps = self.max_utilization_bps;
        let b_supply = rd.b_supply;
        let d_supply = rd.d_supply;
        if b_supply > 0 {
            let utilization_bps = d_supply * 10_000 / b_supply;
            if utilization_bps > max_util_bps as i128 {
                return false;
            }
        }
        let min_backstop_bps = self.min_backstop_bps;
        let backstop_credit = rd.backstop_credit;
        if backstop_credit < 0 {
            return false;
        }
        if b_supply > 0 && backstop_credit >= 0 {
            let coverage_bps = backstop_credit * 10_000 / b_supply;
            if coverage_bps < min_backstop_bps as i128 {
                return false;
            }
        }
        true
    }

    /// The tracked balance.
    pub fn balance_of(&self) -> (r: i128)
        ensures
            r == self.tracked_balance,
    {
        self.tracked_balance
    }

    /// The arithmetic of `available_liquidity` stays within `i128` for this reserve.
    pub open spec fn liquidity_in_range(&self, reserve: Option<ReserveData>) -> bool {
        (self.tracked_balance != 0 && reserve is Some) ==> {
            let rd = reserve->0;
            let available = pool_supplied(rd) - pool_borrowed(rd);
            &&& i128::MIN <= rd.b_supply * rd.b_rate <= i128::MAX
            &&& i128::MIN <= rd.d_supply * rd.d_rate <= i128::MAX
            &&& i128::MIN <= available <= i128::MAX
            &&& available < self.tracked_balance ==> available - AVAILABLE_LIQUIDITY_ROUNDING_MARGIN >= i128::MIN
        }
    }

    /// Whether `liquidity_in_range` holds.
    pub fn liquidity_fits(&self, reserve: Option<ReserveData>) -> (r: bool)
        ensures
            r == self.liquidity_in_range(reserve),
    {
        if self.tracked_balance == 0 {
            return true;
        }
        let rd = match reserve {
            None => {
                return true;
            },
            Some(rd) => rd,
        };
        let supplied = match rd.b_supply.checked_mul(rd.b_rate) {
            Some(x) => x / BLEND_RATE_SCALAR,
            None => {
                return false;
            },
        };
        let borrowed = match rd.d_supply.checked_mul(rd.d_rate) {
            Some(x) => x / BLEND_RATE_SCALAR,
            None => {
                return false;
            },
        };
        let available = match supplied.checked_sub(borrowed) {
            Some(x) => x,
            None => {
                return false;
            },
        };
        if available < self.tracked_balance {
            available.checked_sub(AVAILABLE_LIQUIDITY_ROUNDING_MARGIN).is_some()
        } else {
            true
        }
    }

    /// How much can be withdrawn right now, given the reserve (`None` when the
    /// pool cannot be read).
    pub fn available_liquidity(&self, reserve: Option<ReserveData>) -> (r: i128)
        requires
            self.wf(),
            self.liquidity_in_range(reserve),
        ensures
            r == self.liquidity(reserve),
            0 <= r <= self.tracked_balance,
    {
        let held = self.tracked_balance;
        if held == 0 {
            return 0;
        }
        let rd = match reserve {
            Some(rd) => rd,
            None => {
                return apply_rounding_margin(held);
            },
        };
        let pool_supplied = rd.b_supply * rd.b_rate / BLEND_RATE_SCALAR;
        let pool_borrowed = rd.d_supply * rd.d_rate / BLEND_RATE_SCALAR;
        let pool_available = pool_supplied - pool_borrowed;
        let cap = if pool_available < held {
            pool_available
        } else {
            held
        };
        apply_rounding_margin(cap)
    }

    /// The claim a harvest makes: vault or admin only; nothing to claim when
    /// the reserve cannot be read, otherwise the emissions of the reserve
    /// token numbered twice the reserve's index.
    pub fn harvest(&self, caller: Address, reserve_index: Option<u32>) -> (r: Result<Option<u32>, StrategyError>)
        requires
            self.wf(),
            self.initialized,
            reserve_index matches Some(i) ==> i * 2 <= u32::MAX,
        ensures
            !self.is_vault(caller) && !self.is_admin(caller) ==> r == Err::<Option<u32>, StrategyError>(StrategyError::Unauthorized),
            (self.is_vault(caller) || self.is_admin(caller)) ==> r == Ok::<Option<u32>, StrategyError>(match reserve_index {
                Some(i) => Some((i * 2) as u32),
                None => None,
            }),
    {
        if Some(caller) != self.vault && Some(caller) != self.admin {
            return Err(StrategyError::Unauthorized);
        }
        match reserve_index {
            Some(i) => Ok(Some(i * 2)),
            None => Ok(None),
        }
    }

    /// The underlying asset.
    pub fn asset(&self) -> (r: Address)
        requires
            self.wf(),
            self.initialized,
        ensures
            self.asset == Some(r),
    {
        self.asset.unwrap()
    }

    /// The vault the strategy serves.
    pub fn vault(&self) -> (r: Address)
        requires
            self.wf(),
            self.initialized,
        ensures
            self.vault == Some(r),
    {
        self.vault.unwrap()
    }

    /// The Blend pool.
    pub fn blend_pool(&self) -> (r: Address)
        requires
            self.wf(),
            self.initialized,
        ensures
            self.blend_pool == Some(r),
    {
        self.blend_pool.unwrap()
    }

    /// Whether deposits are paused.
    pub fn is_paused(&self) -> (r: bool)
        ensures
            r == self.paused,
    {
        self.paused
    }
}

} // verus!
