//! Administration of the Blend strategy: pausing, roles, health thresholds
//! and the upgrade timelock.
use vstd::prelude::*;
use crate::address::{Address, WasmHash};
use crate::common::{StrategyError, MAX_BPS};
use crate::blend_strategy::{BlendStrategy, MIN_UPGRADE_DELAY};
use crate::blend_events::{BlendEvent, Pause, Unpause, ConfigKey, ConfigUpdate, AdminChanged, VaultChanged, Upgrade};

verus! {

impl BlendStrategy {
    /// When the scheduled upgrade was scheduled (zero when there is none).
    pub open spec fn scheduled_at(&self) -> int {
        match self.scheduled_upgrade {
            Some(s) => s.1 as int,
            None => 0,
        }
    }

    /// The code hash of the scheduled upgrade.
    pub open spec fn scheduled_hash(&self) -> WasmHash {
        match self.scheduled_upgrade {
            Some(s) => s.0,
            None => WasmHash { hi: 0, lo: 0 },
        }
    }

    /// Stops deposits into the pool (admin only).
    pub fn pause(&mut self, caller: Address) -> (r: Result<(), StrategyError>)
        requires
            old(self).wf(),
            old(self).initialized,
        ensures
            final(self).wf(),
            !old(self).is_admin(caller) ==> r == Err::<(), StrategyError>(StrategyError::Unauthorized),
            old(self).is_admin(caller) ==> r == Ok::<(), StrategyError>(()),
            r is Err ==> *final(self) == *old(self),
            r is Ok ==> {
                &&& final(self).events@ == old(self).events@.push(BlendEvent::Pause(Pause { caller }))
                &&& *final(self) == (BlendStrategy { paused: true, events: final(self).events, ..*old(self) })
            },
    {
        if Some(caller) != self.admin {
            return Err(StrategyError::Unauthorized);
        }
        self.paused = true;
        self.events.push(BlendEvent::Pause(Pause { caller }));
        Ok(())
    }

    /// Resumes deposits into the pool (admin only).
    pub fn unpause(&mut self, caller: Address) -> (r: Result<(), StrategyError>)
        requires
            old(self).wf(),
            old(self).initialized,
        ensures
            final(self).wf(),
            !old(self).is_admin(caller) ==> r == Err::<(), StrategyError>(StrategyError::Unauthorized),
            old(self).is_admin(caller) ==> r == Ok::<(), StrategyError>(()),
            r is Err ==> *final(self) == *old(self),
            r is Ok ==> {
                &&& final(self).events@ == old(self).events@.push(BlendEvent::Unpause(Unpause { caller }))
                &&& *final(self) == (BlendStrategy { paused: false, events: final(self).events, ..*old(self) })
            },
    {
        if Some(caller) != self.admin {
            return Err(StrategyError::Unauthorized);
        }
        self.paused = false;
        self.events.push(BlendEvent::Unpause(Unpause { caller }));
        Ok(())
    }

    /// Proposes `new_admin` as the next admin (admin only).
    pub fn propose_admin(&mut self, caller: Address, new_admin: Address) -> (r: Result<(), StrategyError>)
        requires
            old(self).wf(),
            old(self).initialized,
        ensures
            final(self).wf(),
            !old(self).is_admin(caller) ==> r == Err::<(), StrategyError>(StrategyError::Unauthorized),
            old(self).is_admin(caller) ==> r == Ok::<(), StrategyError>(()),
            r is Err ==> *final(self) == *old(self),
            r is Ok ==> *final(self) == (BlendStrategy { pending_admin: Some(new_admin), ..*old(self) }),
    {
        if Some(caller) != self.admin {
            return Err(StrategyError::Unauthorized);
        }
        self.pending_admin = Some(new_admin);
        Ok(())
    }

    /// The proposed admin takes over the role.
    pub fn accept_admin(&mut self, caller: Address) -> (r: Result<(), StrategyError>)
        requires
            old(self).wf(),
        ensures
            final(self).wf(),
            old(self).pending_admin != Some(caller) ==> r == Err::<(), StrategyError>(StrategyError::Unauthorized),
            old(self).pending_admin == Some(caller) ==> r == Ok::<(), StrategyError>(()),
            r is Err ==> *final(self) == *old(self),
            r is Ok ==> {
                &&& final(self).events@ == old(self).events@.push(BlendEvent::AdminChanged(
                    AdminChanged { old_admin: old(self).admin->0, new_admin: caller }))
                &&& *final(self) == (BlendStrategy {
                    admin: Some(caller),
                    pending_admin: None,
                    events: final(self).events,
                    ..*old(self)
                })
            },
    {
        if self.pending_admin == Some(caller) {
            let old_admin = self.admin.unwrap();
            self.admin = Some(caller);
            self.pending_admin = None;
            self.events.push(BlendEvent::AdminChanged(AdminChanged { old_admin, new_admin: caller }));
            Ok(())
        } else {
            Err(StrategyError::Unauthorized)
        }
    }

    /// Points the strategy at another vault (admin only).
    pub fn set_vault(&mut self, caller: Address, new_vault: Address) -> (r: Result<(), StrategyError>)
        requires
            old(self).wf(),
            old(self).initialized,
        ensures
            final(self).wf(),
            !old(self).is_admin(caller) ==> r == Err::<(), StrategyError>(StrategyError::Unauthorized),
            old(self).is_admin(caller) ==> r == Ok::<(), StrategyError>(()),
            r is Err ==> *final(self) == *old(self),
            r is Ok ==> {
                &&& final(self).events@ == old(self).events@.push(BlendEvent::VaultChanged(
                    VaultChanged { old_vault: old(self).vault->0, new_vault }))
                &&& *final(self) == (BlendStrategy { vault: Some(new_vault), events: final(self).events, ..*old(self) })
            },
    {
        if Some(caller) != self.admin {
            return Err(StrategyError::Unauthorized);
        }
        let old_vault = self.vault.unwrap();
        self.vault = Some(new_vault);
        self.events.push(BlendEvent::VaultChanged(VaultChanged { old_vault, new_vault }));
        Ok(())
    }

    /// Sets the utilization ceiling of the health check, in basis points (admin only).
    pub fn set_max_utilization(&mut self, caller: Address, bps: u32) -> (r: Result<(), StrategyError>)
        requires
            old(self).wf(),
            old(self).initialized,
        ensures
            final(self).wf(),
            !old(self).is_admin(caller) ==> r == Err::<(), StrategyError>(StrategyError::Unauthorized),
            old(self).is_admin(caller) && bps > MAX_BPS ==> r == Err::<(), StrategyError>(StrategyError::InvalidBps),
            old(self).is_admin(caller) && bps <= MAX_BPS ==> r == Ok::<(), StrategyError>(()),
            r is Err ==> *final(self) == *old(self),
            r is Ok ==> {
                &&& final(self).events@ == old(self).events@.push(BlendEvent::ConfigUpdate(
                    ConfigUpdate { key: ConfigKey::MaxUtil, value: bps }))
                &&& *final(self) == (BlendStrategy { max_utilization_bps: bps, events: final(self).events, ..*old(self) })
            },
    {
        if Some(caller) != self.admin {
            return Err(StrategyError::Unauthorized);
        }
        if bps > MAX_BPS {
            return Err(StrategyError::InvalidBps);
        }
        self.max_utilization_bps = bps;
        self.events.push(BlendEvent::ConfigUpdate(ConfigUpdate { key: ConfigKey::MaxUtil, value: bps }));
        Ok(())
    }

    /// Sets the backstop-coverage floor of the health check, in basis points (admin only).
    pub fn set_min_backstop_coverage(&mut self, caller: Address, bps: u32) -> (r: Result<(), StrategyError>)
        requires
            old(self).wf(),
            old(self).initialized,
        ensures
            final(self).wf(),
            !old(self).is_admin(caller) ==> r == Err::<(), StrategyError>(StrategyError::Unauthorized),
            old(self).is_admin(caller) && bps > MAX_BPS ==> r == Err::<(), StrategyError>(StrategyError::InvalidBps),
            old(self).is_admin(caller) && bps <= MAX_BPS ==> r == Ok::<(), StrategyError>(()),
            r is Err ==> *final(self) == *old(self),
            r is Ok ==> {
                &&& final(self).events@ == old(self).events@.push(BlendEvent::ConfigUpdate(
                    ConfigUpdate { key: ConfigKey::MinBackstop, value: bps }))
                &&& *final(self) == (BlendStrategy { min_backstop_bps: bps, events: final(self).events, ..*old(self) })
            },
    {
        if Some(caller) != self.admin {
            return Err(StrategyError::Unauthorized);
        }
        if bps > MAX_BPS {
            return Err(StrategyError::InvalidBps);
        }
        self.min_backstop_bps = bps;
        self.events.push(BlendEvent::ConfigUpdate(ConfigUpdate { key: ConfigKey::MinBackstop, value: bps }));
        Ok(())
    }

    /// Sets how many ledgers an approval to the pool stays valid (admin only).
    pub fn set_approval_buffer(&mut self, caller: Address, buffer: u32) -> (r: Result<(), StrategyError>)
        requires
            old(self).wf(),
            old(self).initialized,
        ensures
            final(self).wf(),
            !old(self).is_admin(caller) ==> r == Err::<(), StrategyError>(StrategyError::Unauthorized),
            old(self).is_admin(caller) ==> r == Ok::<(), StrategyError>(()),
            r is Err ==> *final(self) == *old(self),
            r is Ok ==> {
                &&& final(self).events@ == old(self).events@.push(BlendEvent::ConfigUpdate(
                    ConfigUpdate { key: ConfigKey::ApprovalBuf, value: buffer }))
                &&& *final(self) == (BlendStrategy { approval_buffer: buffer, events: final(self).events, ..*old(self) })
            },
    {
        if Some(caller) != self.admin {
            return Err(StrategyError::Unauthorized);
        }
        self.approval_buffer = buffer;
        self.events.push(BlendEvent::ConfigUpdate(ConfigUpdate { key: ConfigKey::ApprovalBuf, value: buffer }));
        Ok(())
    }

    /// Sets the upgrade delay, at least one hour (admin only).
    pub fn set_upgrade_delay(&mut self, caller: Address, delay: u64) -> (r: Result<(), StrategyError>)
        requires
            old(self).wf(),
            old(self).initialized,
        ensures
            final(self).wf(),
            !old(self).is_admin(caller) ==> r == Err::<(), StrategyError>(StrategyError::Unauthorized),
            old(self).is_admin(caller) && delay < MIN_UPGRADE_DELAY ==> r == Err::<(), StrategyError>(StrategyError::InvalidBps),
            old(self).is_admin(caller) && delay >= MIN_UPGRADE_DELAY ==> r == Ok::<(), StrategyError>(()),
            r is Err ==> *final(self) == *old(self),
            r is Ok ==> *final(self) == (BlendStrategy { upgrade_delay: delay, ..*old(self) }),
    {
        if Some(caller) != self.admin {
            return Err(StrategyError::Unauthorized);
        }
        if delay < MIN_UPGRADE_DELAY {
            return Err(StrategyError::InvalidBps);
        }
        self.upgrade_delay = delay;
        Ok(())
    }

    /// Schedules a code upgrade at time `now` (admin only).
    pub fn schedule_upgrade(&mut self, caller: Address, new_wasm_hash: WasmHash, now: u64) -> (r: Result<(), StrategyError>)
        requires
            old(self).wf(),
            old(self).initialized,
        ensures
            final(self).wf(),
            !old(self).is_admin(caller) ==> r == Err::<(), StrategyError>(StrategyError::Unauthorized),
            old(self).is_admin(caller) ==> r == Ok::<(), StrategyError>(()),
            r is Err ==> *final(self) == *old(self),
            r is Ok ==> *final(self) == (BlendStrategy { scheduled_upgrade: Some((new_wasm_hash, now)), ..*old(self) }),
    {
        if Some(caller) != self.admin {
            return Err(StrategyError::Unauthorized);
        }
        self.scheduled_upgrade = Some((new_wasm_hash, now));
        Ok(())
    }

    /// Releases the scheduled upgrade once its delay has passed at time
    /// `now` (admin only) and returns the code hash to switch to.
    pub fn execute_upgrade(&mut self, caller: Address, now: u64) -> (r: Result<WasmHash, StrategyError>)
        requires
            old(self).wf(),
            old(self).initialized,
            old(self).is_admin(caller) && old(self).scheduled_upgrade is Some
                ==> old(self).scheduled_at() + old(self).upgrade_delay <= u64::MAX,
        ensures
            final(self).wf(),
            !old(self).is_admin(caller) ==> r == Err::<WasmHash, StrategyError>(StrategyError::Unauthorized),
            old(self).is_admin(caller) && old(self).scheduled_upgrade is None
                ==> r == Err::<WasmHash, StrategyError>(StrategyError::UpgradeNotScheduled),
            old(self).is_admin(caller) && old(self).scheduled_upgrade is Some
                && now < old(self).scheduled_at() + old(self).upgrade_delay
                ==> r == Err::<WasmHash, StrategyError>(StrategyError::UpgradeTooEarly),
            old(self).is_admin(caller) && old(self).scheduled_upgrade is Some
                && now >= old(self).scheduled_at() + old(self).upgrade_delay
                ==> r == Ok::<WasmHash, StrategyError>(old(self).scheduled_hash()),
            r is Err ==> *final(self) == *old(self),
            r matches Ok(h) ==> {
                &&& final(self).events@ == old(self).events@.push(BlendEvent::Upgrade(Upgrade { new_wasm_hash: h }))
                &&& *final(self) == (BlendStrategy { scheduled_upgrade: None, events: final(self).events, ..*old(self) })
            },
    {
        if Some(caller) != self.admin {
            return Err(StrategyError::Unauthorized);
        }
        let (wasm_hash, scheduled_at) = match self.scheduled_upgrade {
            Some(s) => s,
            None => {
                return Err(StrategyError::UpgradeNotScheduled);
            },
        };
        if now < scheduled_at + self.upgrade_delay {
            return Err(StrategyError::UpgradeTooEarly);
        }
        self.scheduled_upgrade = None;
        self.events.push(BlendEvent::Upgrade(Upgrade { new_wasm_hash: wasm_hash }));
        Ok(wasm_hash)
    }

    /// Drops the scheduled upgrade (admin only).
    pub fn cancel_upgrade(&mut self, caller: Address) -> (r: Result<(), StrategyError>)
        requires
            old(self).wf(),
            old(self).initialized,
        ensures
            final(self).wf(),
            !old(self).is_admin(caller) ==> r == Err::<(), StrategyError>(StrategyError::Unauthorized),
            old(self).is_admin(caller) && old(self).scheduled_upgrade is None
                ==> r == Err::<(), StrategyError>(StrategyError::UpgradeNotScheduled),
            old(self).is_admin(caller) && old(self).scheduled_upgrade is Some ==> r == Ok::<(), StrategyError>(()),
            r is Err ==> *final(self) == *old(self),
            r is Ok ==> *final(self) == (BlendStrategy { scheduled_upgrade: None, ..*old(self) }),
    {
        if Some(caller) != self.admin {
            return Err(StrategyError::Unauthorized);
        }
        if self.scheduled_upgrade.is_none() {
            return Err(StrategyError::UpgradeNotScheduled);
        }
        self.scheduled_upgrade = None;
        Ok(())
    }
}

/// A scheduled strategy upgrade can never run at the time it was scheduled:
/// the delay is always positive.
pub proof fn law_strategy_upgrade_never_immediate(s: BlendStrategy, hash: WasmHash, now: u64)
    requires
        s.wf(),
    ensures
        now < (BlendStrategy { scheduled_upgrade: Some((hash, now)), ..s }).scheduled_at() + s.upgrade_delay,
{
}

} // verus!
