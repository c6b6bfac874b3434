//! Roles, configuration, pausing, the upgrade timelock and read-only views.
use vstd::prelude::*;
use vstd::string::StringExecFns;
use crate::address::{Address, WasmHash};
use crate::vault::{TezoroVault, VaultError, MIN_UPGRADE_DELAY};
use crate::vault_events::{
    VaultEvent, Pause, Unpause, DepositCapUpdate, SetRole, Role, AdminProposed, AdminAccepted,
    UpgradeScheduled, Upgrade, UpgradeCancelled,
};

verus! {

impl TezoroVault {
    /// When the scheduled upgrade was scheduled (zero when there is none).
    pub open spec fn scheduled_at(&self) -> int {
        match self.scheduled_upgrade {
            Some(s) => s.1 as int,
            None => 0,
        }
    }

    /// The code hash of the scheduled upgrade.
    pub open spec fn scheduled_hash(&self) -> WasmHash {
        match self.scheduled_upgrade {
            Some(s) => s.0,
            None => WasmHash { hi: 0, lo: 0 },
        }
    }

    /// Share token name; "Tezoro Vault" until one is set.
    pub fn name(&self) -> (r: String)
        ensures
            r@ == (match self.vault_name {
                Some(n) => n@,
                None => "Tezoro Vault"@,
            }),
    {
        match &self.vault_name {
            Some(n) => n.clone(),
            None => String::from_str("Tezoro Vault"),
        }
    }

    /// Share token symbol; "tVAULT" until one is set.
    pub fn symbol(&self) -> (r: String)
        ensures
            r@ == (match self.vault_symbol {
                Some(n) => n@,
                None => "tVAULT"@,
            }),
    {
        match &self.vault_symbol {
            Some(n) => n.clone(),
            None => String::from_str("tVAULT"),
        }
    }

    /// Stops deposits (admin or guardian). Redemptions stay open.
    pub fn pause(&mut self, caller: Address) -> (r: Result<(), VaultError>)
        requires
            old(self).wf(),
            old(self).initialized,
        ensures
            final(self).wf(),
            old(self).admin != Some(caller) && old(self).guardian != Some(caller)
                ==> r == Err::<(), VaultError>(VaultError::Unauthorized),
            old(self).admin == Some(caller) || old(self).guardian == Some(caller) ==> r == Ok::<(), VaultError>(()),
            r is Err ==> *final(self) == *old(self),
            r is Ok ==> {
                &&& final(self).events@ == old(self).events@.push(VaultEvent::Pause(Pause { caller }))
                &&& *final(self) == (TezoroVault { paused: true, events: final(self).events, ..*old(self) })
            },
    {
        if Some(caller) != self.admin && Some(caller) != self.guardian {
            return Err(VaultError::Unauthorized);
        }
        self.paused = true;
        self.events.push(VaultEvent::Pause(Pause { caller }));
        Ok(())
    }

    /// Resumes deposits (admin only).
    pub fn unpause(&mut self, caller: Address) -> (r: Result<(), VaultError>)
        requires
            old(self).wf(),
            old(self).initialized,
        ensures
            final(self).wf(),
            !old(self).is_admin(caller) ==> r == Err::<(), VaultError>(VaultError::Unauthorized),
            old(self).is_admin(caller) ==> r == Ok::<(), VaultError>(()),
            r is Err ==> *final(self) == *old(self),
            r is Ok ==> {
                &&& final(self).events@ == old(self).events@.push(VaultEvent::Unpause(Unpause { caller }))
                &&& *final(self) == (TezoroVault { paused: false, events: final(self).events, ..*old(self) })
            },
    {
        if Some(caller) != self.admin {
            return Err(VaultError::Unauthorized);
        }
        self.paused = false;
        self.events.push(VaultEvent::Unpause(Unpause { caller }));
        Ok(())
    }

    /// Sets the deposit cap; zero means unlimited (admin only).
    pub fn set_deposit_cap(&mut self, caller: Address, cap: i128) -> (r: Result<(), VaultError>)
        requires
            old(self).wf(),
            old(self).initialized,
        ensures
            final(self).wf(),
            !old(self).is_admin(caller) ==> r == Err::<(), VaultError>(VaultError::Unauthorized),
            old(self).is_admin(caller) && cap < 0 ==> r == Err::<(), VaultError>(VaultError::InvalidBalance),
            old(self).is_admin(caller) && cap >= 0 ==> r == Ok::<(), VaultError>(()),
            r is Err ==> *final(self) == *old(self),
            r is Ok ==> {
                &&& final(self).events@ == old(self).events@.push(VaultEvent::DepositCapUpdate(DepositCapUpdate { cap }))
                &&& *final(self) == (TezoroVault { deposit_cap: cap, events: final(self).events, ..*old(self) })
            },
    {
        if Some(caller) != self.admin {
            return Err(VaultError::Unauthorized);
        }
        if cap < 0 {
            return Err(VaultError::InvalidBalance);
        }
        self.deposit_cap = cap;
        self.events.push(VaultEvent::DepositCapUpdate(DepositCapUpdate { cap }));
        Ok(())
    }

    /// Hands the keeper role to `new_keeper` (admin only).
    pub fn set_keeper(&mut self, caller: Address, new_keeper: Address) -> (r: Result<(), VaultError>)
        requires
            old(self).wf(),
            old(self).initialized,
        ensures
            final(self).wf(),
            !old(self).is_admin(caller) ==> r == Err::<(), VaultError>(VaultError::Unauthorized),
            old(self).is_admin(caller) ==> r == Ok::<(), VaultError>(()),
            r is Err ==> *final(self) == *old(self),
            r is Ok ==> {
                &&& final(self).events@ == old(self).events@.push(
                    VaultEvent::SetRole(SetRole { role: Role::Keeper, new_address: new_keeper }))
                &&& *final(self) == (TezoroVault { keeper: Some(new_keeper), events: final(self).events, ..*old(self) })
            },
    {
        if Some(caller) != self.admin {
            return Err(VaultError::Unauthorized);
        }
        self.keeper = Some(new_keeper);
        self.events.push(VaultEvent::SetRole(SetRole { role: Role::Keeper, new_address: new_keeper }));
        Ok(())
    }

    /// Hands the guardian role to `new_guardian` (admin only).
    pub fn set_guardian(&mut self, caller: Address, new_guardian: Address) -> (r: Result<(), VaultError>)
        requires
            old(self).wf(),
            old(self).initialized,
        ensures
            final(self).wf(),
            !old(self).is_admin(caller) ==> r == Err::<(), VaultError>(VaultError::Unauthorized),
            old(self).is_admin(caller) ==> r == Ok::<(), VaultError>(()),
            r is Err ==> *final(self) == *old(self),
            r is Ok ==> {
                &&& final(self).events@ == old(self).events@.push(
                    VaultEvent::SetRole(SetRole { role: Role::Guardian, new_address: new_guardian }))
                &&& *final(self) == (TezoroVault { guardian: Some(new_guardian), events: final(self).events, ..*old(self) })
            },
    {
        if Some(caller) != self.admin {
            return Err(VaultError::Unauthorized);
        }
        self.guardian = Some(new_guardian);
        self.events.push(VaultEvent::SetRole(SetRole { role: Role::Guardian, new_address: new_guardian }));
        Ok(())
    }

    /// Proposes `new_admin` as the next admin (admin only); the role moves
    /// only when the proposed address accepts.
    pub fn propose_admin(&mut self, caller: Address, new_admin: Address) -> (r: Result<(), VaultError>)
        requires
            old(self).wf(),
            old(self).initialized,
        ensures
            final(self).wf(),
            !old(self).is_admin(caller) ==> r == Err::<(), VaultError>(VaultError::Unauthorized),
            old(self).is_admin(caller) ==> r == Ok::<(), VaultError>(()),
            r is Err ==> *final(self) == *old(self),
            r is Ok ==> {
                &&& final(self).events@ == old(self).events@.push(
                    VaultEvent::AdminProposed(AdminProposed { current: caller, proposed: new_admin }))
                &&& *final(self) == (TezoroVault { pending_admin: Some(new_admin), events: final(self).events, ..*old(self) })
            },
    {
        if Some(caller) != self.admin {
            return Err(VaultError::Unauthorized);
        }
        self.pending_admin = Some(new_admin);
        self.events.push(VaultEvent::AdminProposed(AdminProposed { current: caller, proposed: new_admin }));
        Ok(())
    }

    /// The proposed admin takes over the role.
    pub fn accept_admin(&mut self, caller: Address) -> (r: Result<(), VaultError>)
        requires
            old(self).wf(),
        ensures
            final(self).wf(),
            old(self).pending_admin != Some(caller) ==> r == Err::<(), VaultError>(VaultError::NoPendingAdmin),
            old(self).pending_admin == Some(caller) ==> r == Ok::<(), VaultError>(()),
            r is Err ==> *final(self) == *old(self),
            r is Ok ==> {
                &&& final(self).events@ == old(self).events@.push(
                    VaultEvent::AdminAccepted(AdminAccepted { new_admin: caller }))
                &&& *final(self) == (TezoroVault {
                    admin: Some(caller),
                    pending_admin: None,
                    events: final(self).events,
                    ..*old(self)
                })
            },
    {
        if self.pending_admin == Some(caller) {
            self.admin = Some(caller);
            self.pending_admin = None;
            self.events.push(VaultEvent::AdminAccepted(AdminAccepted { new_admin: caller }));
            Ok(())
        } else {
            Err(VaultError::NoPendingAdmin)
        }
    }

    /// Sets how long a bridged-balance attestation counts, in seconds (admin only).
    pub fn set_bridged_max_age(&mut self, caller: Address, max_age: u64) -> (r: Result<(), VaultError>)
        requires
            old(self).wf(),
            old(self).initialized,
        ensures
            final(self).wf(),
            !old(self).is_admin(caller) ==> r == Err::<(), VaultError>(VaultError::Unauthorized),
            old(self).is_admin(caller) ==> r == Ok::<(), VaultError>(()),
            r is Err ==> *final(self) == *old(self),
            r is Ok ==> *final(self) == (TezoroVault { bridged_max_age: max_age, ..*old(self) }),
    {
        if Some(caller) != self.admin {
            return Err(VaultError::Unauthorized);
        }
        self.bridged_max_age = max_age;
        Ok(())
    }

    /// Sets the upgrade delay, at least one hour (admin only).
    pub fn set_upgrade_delay(&mut self, caller: Address, delay: u64) -> (r: Result<(), VaultError>)
        requires
            old(self).wf(),
            old(self).initialized,
        ensures
            final(self).wf(),
            !old(self).is_admin(caller) ==> r == Err::<(), VaultError>(VaultError::Unauthorized),
            old(self).is_admin(caller) && delay < MIN_UPGRADE_DELAY ==> r == Err::<(), VaultError>(VaultError::InvalidBalance),
            old(self).is_admin(caller) && delay >= MIN_UPGRADE_DELAY ==> r == Ok::<(), VaultError>(()),
            r is Err ==> *final(self) == *old(self),
            r is Ok ==> *final(self) == (TezoroVault { upgrade_delay: delay, ..*old(self) }),
    {
        if Some(caller) != self.admin {
            return Err(VaultError::Unauthorized);
        }
        if delay < MIN_UPGRADE_DELAY {
            return Err(VaultError::InvalidBalance);
        }
        self.upgrade_delay = delay;
        Ok(())
    }

    /// Schedules a code upgrade at time `now`; it may run once the upgrade
    /// delay has passed (admin only). A new schedule replaces an older one.
    pub fn schedule_upgrade(&mut self, caller: Address, new_wasm_hash: WasmHash, now: u64) -> (r: Result<(), VaultError>)
        requires
            old(self).wf(),
            old(self).initialized,
            old(self).is_admin(caller) ==> now + old(self).upgrade_delay <= u64::MAX,
        ensures
            final(self).wf(),
            !old(self).is_admin(caller) ==> r == Err::<(), VaultError>(VaultError::Unauthorized),
            old(self).is_admin(caller) ==> r == Ok::<(), VaultError>(()),
            r is Err ==> *final(self) == *old(self),
            r is Ok ==> {
                &&& final(self).events@ == old(self).events@.push(VaultEvent::UpgradeScheduled(UpgradeScheduled {
                    wasm_hash: new_wasm_hash,
                    execute_after: (now + old(self).upgrade_delay) as u64,
                }))
                &&& *final(self) == (TezoroVault {
                    scheduled_upgrade: Some((new_wasm_hash, now)),
                    events: final(self).events,
                    ..*old(self)
                })
            },
    {
        if Some(caller) != self.admin {
            return Err(VaultError::Unauthorized);
        }
        let delay = self.upgrade_delay;
        let execute_after = now + delay;
        self.scheduled_upgrade = Some((new_wasm_hash, now));
        self.events.push(VaultEvent::UpgradeScheduled(UpgradeScheduled { wasm_hash: new_wasm_hash, execute_after }));
        Ok(())
    }

    /// Releases the scheduled upgrade once its delay has passed at time
    /// `now` (admin only) and returns the code hash the contract must switch to.
    pub fn execute_upgrade(&mut self, caller: Address, now: u64) -> (r: Result<WasmHash, VaultError>)
        requires
            old(self).wf(),
            old(self).initialized,
            old(self).is_admin(caller) && old(self).scheduled_upgrade is Some
                ==> old(self).scheduled_at() + old(self).upgrade_delay <= u64::MAX,
        ensures
            final(self).wf(),
            !old(self).is_admin(caller) ==> r == Err::<WasmHash, VaultError>(VaultError::Unauthorized),
            old(self).is_admin(caller) && old(self).scheduled_upgrade is None
                ==> r == Err::<WasmHash, VaultError>(VaultError::UpgradeNotScheduled),
            old(self).is_admin(caller) && old(self).scheduled_upgrade is Some
                && now < old(self).scheduled_at() + old(self).upgrade_delay
                ==> r == Err::<WasmHash, VaultError>(VaultError::UpgradeTooEarly),
            old(self).is_admin(caller) && old(self).scheduled_upgrade is Some
                && now >= old(self).scheduled_at() + old(self).upgrade_delay
                ==> r == Ok::<WasmHash, VaultError>(old(self).scheduled_hash()),
            r is Err ==> *final(self) == *old(self),
            r matches Ok(h) ==> {
                &&& final(self).events@ == old(self).events@.push(VaultEvent::Upgrade(Upgrade { new_wasm_hash: h }))
                &&& *final(self) == (TezoroVault {
                    scheduled_upgrade: None,
                    events: final(self).events,
                    ..*old(self)
                })
            },
    {
        if Some(caller) != self.admin {
            return Err(VaultError::Unauthorized);
        }
        let (wasm_hash, scheduled_at) = match self.scheduled_upgrade {
            Some(s) => s,
            None => {
                return Err(VaultError::UpgradeNotScheduled);
            },
        };
        let delay = self.upgrade_delay;
        if now < scheduled_at + delay {
            return Err(VaultError::UpgradeTooEarly);
        }
        self.scheduled_upgrade = None;
        self.events.push(VaultEvent::Upgrade(Upgrade { new_wasm_hash: wasm_hash }));
        Ok(wasm_hash)
    }

    /// Drops the scheduled upgrade (admin only).
    pub fn cancel_upgrade(&mut self, caller: Address) -> (r: Result<(), VaultError>)
        requires
            old(self).wf(),
            old(self).initialized,
        ensures
            final(self).wf(),
            !old(self).is_admin(caller) ==> r == Err::<(), VaultError>(VaultError::Unauthorized),
            old(self).is_admin(caller) && old(self).scheduled_upgrade is None
                ==> r == Err::<(), VaultError>(VaultError::UpgradeNotScheduled),
            old(self).is_admin(caller) && old(self).scheduled_upgrade is Some ==> r == Ok::<(), VaultError>(()),
            r is Err ==> *final(self) == *old(self),
            r is Ok ==> {
                &&& final(self).events@ == old(self).events@.push(VaultEvent::UpgradeCancelled(UpgradeCancelled {}))
                &&& *final(self) == (TezoroVault {
                    scheduled_upgrade: None,
                    events: final(self).events,
                    ..*old(self)
                })
            },
    {
        if Some(caller) != self.admin {
            return Err(VaultError::Unauthorized);
        }
        if self.scheduled_upgrade.is_none() {
            return Err(VaultError::UpgradeNotScheduled);
        }
        self.scheduled_upgrade = None;
        self.events.push(VaultEvent::UpgradeCancelled(UpgradeCancelled {}));
        Ok(())
    }

    /// The underlying asset.
    pub fn asset(&self) -> (r: Address)
        requires
            self.wf(),
            self.initialized,
        ensures
            self.asset == Some(r),
    {
        self.asset.unwrap()
    }

    /// The admin.
    pub fn admin(&self) -> (r: Address)
        requires
            self.wf(),
            self.initialized,
        ensures
            self.admin == Some(r),
    {
        self.admin.unwrap()
    }

    /// The proposed admin, if any.
    pub fn pending_admin(&self) -> (r: Option<Address>)
        ensures
            r == self.pending_admin,
    {
        self.pending_admin
    }

    /// The keeper.
    pub fn keeper(&self) -> (r: Address)
        requires
            self.wf(),
            self.initialized,
        ensures
            self.keeper == Some(r),
    {
        self.keeper.unwrap()
    }

    /// The guardian.
    pub fn guardian(&self) -> (r: Address)
        requires
            self.wf(),
            self.initialized,
        ensures
            self.guardian == Some(r),
    {
        self.guardian.unwrap()
    }

    /// Whether deposits are paused.
    pub fn is_paused(&self) -> (r: bool)
        ensures
            r == self.paused,
    {
        self.paused
    }

    /// The last attested bridged balance, fresh or not.
    pub fn bridged_balance(&self) -> (r: i128)
        ensures
            r == self.bridged_balance,
    {
        self.bridged_balance
    }

    /// When the bridged balance was last attested.
    pub fn bridged_timestamp(&self) -> (r: u64)
        ensures
            r == self.bridged_timestamp,
    {
        self.bridged_timestamp
    }

    /// The deposit cap; zero means unlimited.
    pub fn deposit_cap(&self) -> (r: i128)
        ensures
            r == self.deposit_cap,
    {
        self.deposit_cap
    }

    /// The performance fee, in basis points.
    pub fn performance_fee_bps(&self) -> (r: u32)
        ensures
            r == self.performance_fee_bps,
    {
        self.performance_fee_bps
    }

    /// The high-water mark, scaled by `NAV_PRECISION`.
    pub fn high_water_mark(&self) -> (r: i128)
        ensures
            r == self.high_water_mark,
    {
        self.high_water_mark
    }

    /// The upgrade delay, in seconds.
    pub fn upgrade_delay(&self) -> (r: u64)
        ensures
            r == self.upgrade_delay,
    {
        self.upgrade_delay
    }

    /// The scheduled upgrade: code hash and the time it was scheduled.
    pub fn scheduled_upgrade(&self) -> (r: Option<(WasmHash, u64)>)
        ensures
            r == self.scheduled_upgrade,
    {
        self.scheduled_upgrade
    }
}

} // verus!
