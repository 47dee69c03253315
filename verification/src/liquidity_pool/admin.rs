use vstd::prelude::*;
use crate::{hashes_equal, Address, WasmHash};
use super::errors::LiquidityPoolError;
use super::storage::LiquidityPoolContract;
use super::types::{PendingUpgrade, ProtocolParameters, DEFAULT_UPGRADE_DELAY_SECONDS};

verus! {

/// Upgrade timelock: the parameters contract's positive delay, else the
/// default. `reply` is the parameters contract's answer (`None` when no
/// parameters contract is set or the call failed).
pub open spec fn spec_upgrade_delay_seconds(reply: Option<ProtocolParameters>) -> u64 {
    match reply {
        Some(p) => if p.upgrade_delay_seconds > 0 {
            p.upgrade_delay_seconds
        } else {
            DEFAULT_UPGRADE_DELAY_SECONDS
        },
        None => DEFAULT_UPGRADE_DELAY_SECONDS,
    }
}

/// Upgrade timelock.
pub fn get_upgrade_delay_seconds(reply: Option<ProtocolParameters>) -> (r: u64)
    ensures
        r == spec_upgrade_delay_seconds(reply),
{
    match reply {
        Some(p) => if p.upgrade_delay_seconds > 0 {
            p.upgrade_delay_seconds
        } else {
            DEFAULT_UPGRADE_DELAY_SECONDS
        },
        None => DEFAULT_UPGRADE_DELAY_SECONDS,
    }
}

impl LiquidityPoolContract {
    /// `caller` must be the stored admin.
    pub open spec fn spec_require_admin(self, caller: Address) -> Result<(), LiquidityPoolError> {
        match self.admin {
            None => Err(LiquidityPoolError::NotInitialized),
            Some(a) => if a == caller {
                Ok(())
            } else {
                Err(LiquidityPoolError::NotAdmin)
            },
        }
    }

    /// `caller` must be the stored admin.
    pub fn require_admin(&self, caller: Address) -> (r: Result<(), LiquidityPoolError>)
        ensures
            r == self.spec_require_admin(caller),
    {
        match self.admin {
            None => Err(LiquidityPoolError::NotInitialized),
            Some(a) => if a == caller {
                Ok(())
            } else {
                Err(LiquidityPoolError::NotAdmin)
            },
        }
    }

    /// One-time setup of the admin, the token, the fee recipients and the
    /// optional vendor registry used to vet fund recipients.
    pub fn initialize(
        &mut self,
        admin: Address,
        token: Address,
        treasury: Address,
        merchant_fund: Address,
        vendor_registry: Option<Address>,
    ) -> (r: Result<(), LiquidityPoolError>)
        ensures
            r is Err <==> old(self).admin is Some,
            r is Err ==> r->Err_0 == LiquidityPoolError::AlreadyInitialized && *final(self) == *old(
                self),
            r is Ok ==> *final(self) == (LiquidityPoolContract {
                admin: Some(admin),
                token: Some(token),
                treasury: Some(treasury),
                merchant_fund: Some(merchant_fund),
                vendor_registry,
                ..*old(self)
            }),
    {
        if self.admin.is_some() {
            return Err(LiquidityPoolError::AlreadyInitialized);
        }
        self.admin = Some(admin);
        self.token = Some(token);
        self.treasury = Some(treasury);
        self.merchant_fund = Some(merchant_fund);
        self.vendor_registry = vendor_registry;
        Ok(())
    }

    /// Registers the credit line allowed to fund loans. Admin only.
    pub fn set_creditline(&mut self, admin: Address, creditline: Address) -> (r: Result<
        (),
        LiquidityPoolError,
    >)
        ensures
            r == old(self).spec_require_admin(admin),
            r is Err ==> *final(self) == *old(self),
            r is Ok ==> *final(self) == (LiquidityPoolContract {
                creditline: Some(creditline),
                ..*old(self)
            }),
    {
        self.require_admin(admin)?;
        self.creditline = Some(creditline);
        Ok(())
    }

    /// Sets the per-ledger outflow cap in basis points (0 disables it; above
    /// 10000 is `InvalidCap`). Admin only.
    pub fn set_outflow_cap_bps(&mut self, admin: Address, bps: u32) -> (r: Result<
        (),
        LiquidityPoolError,
    >)
        requires
            old(self).wf(),
        ensures
            final(self).wf(),
            r is Ok <==> old(self).spec_require_admin(admin) is Ok && bps <= 10_000,
            r is Err ==> *final(self) == *old(self) && r->Err_0 == (if old(self).spec_require_admin(
                admin,
            ) is Err {
                old(self).spec_require_admin(admin)->Err_0
            } else {
                LiquidityPoolError::InvalidCap
            }),
            r is Ok ==> *final(self) == (LiquidityPoolContract {
                outflow_cap_bps: bps,
                ..*old(self)
            }),
    {
        self.require_admin(admin)?;
        if bps > 10_000 {
            return Err(LiquidityPoolError::InvalidCap);
        }
        self.outflow_cap_bps = bps;
        Ok(())
    }

    /// Sets the cumulative per-merchant exposure cap (0 disables it; a
    /// negative amount is `InvalidCap`). Admin only.
    pub fn set_merchant_exposure_cap(&mut self, admin: Address, amount: i128) -> (r: Result<
        (),
        LiquidityPoolError,
    >)
        requires
            old(self).wf(),
        ensures
            final(self).wf(),
            r is Ok <==> old(self).spec_require_admin(admin) is Ok && amount >= 0,
            r is Err ==> *final(self) == *old(self) && r->Err_0 == (if old(self).spec_require_admin(
                admin,
            ) is Err {
                old(self).spec_require_admin(admin)->Err_0
            } else {
                LiquidityPoolError::InvalidCap
            }),
            r is Ok ==> *final(self) == (LiquidityPoolContract {
                merchant_exposure_cap: amount,
                ..*old(self)
            }),
    {
        self.require_admin(admin)?;
        if amount < 0 {
            return Err(LiquidityPoolError::InvalidCap);
        }
        self.merchant_exposure_cap = amount;
        Ok(())
    }

    /// Sets or clears the vendor registry used to vet fund recipients.
    /// Admin only.
    pub fn set_vendor_registry(&mut self, admin: Address, registry: Option<Address>) -> (r: Result<
        (),
        LiquidityPoolError,
    >)
        ensures
            r == old(self).spec_require_admin(admin),
            r is Err ==> *final(self) == *old(self),
            r is Ok ==> *final(self) == (LiquidityPoolContract {
                vendor_registry: registry,
                ..*old(self)
            }),
    {
        self.require_admin(admin)?;
        self.vendor_registry = registry;
        Ok(())
    }

    /// Sets the treasury receiving the protocol fee. Admin only.
    pub fn set_treasury(&mut self, admin: Address, treasury: Address) -> (r: Result<
        (),
        LiquidityPoolError,
    >)
        ensures
            r == old(self).spec_require_admin(admin),
            r is Err ==> *final(self) == *old(self),
            r is Ok ==> *final(self) == (LiquidityPoolContract {
                treasury: Some(treasury),
                ..*old(self)
            }),
    {
        self.require_admin(admin)?;
        self.treasury = Some(treasury);
        Ok(())
    }

    /// Sets the merchant incentive fund. Admin only.
    pub fn set_merchant_fund(&mut self, admin: Address, merchant_fund: Address) -> (r: Result<
        (),
        LiquidityPoolError,
    >)
        ensures
            r == old(self).spec_require_admin(admin),
            r is Err ==> *final(self) == *old(self),
            r is Ok ==> *final(self) == (LiquidityPoolContract {
                merchant_fund: Some(merchant_fund),
                ..*old(self)
            }),
    {
        self.require_admin(admin)?;
        self.merchant_fund = Some(merchant_fund);
        Ok(())
    }

    /// Hands the admin role to `new_admin`; the current admin authorizes.
    pub fn set_admin(&mut self, new_admin: Address) -> (r: Result<(), LiquidityPoolError>)
        ensures
            r is Err <==> old(self).admin is None,
            r is Err ==> r->Err_0 == LiquidityPoolError::NotInitialized && *final(self) == *old(
                self),
            r is Ok ==> *final(self) == (LiquidityPoolContract { admin: Some(new_admin), ..*old(self) }),
    {
        let _old_admin = self.get_admin()?;
        self.admin = Some(new_admin);
        Ok(())
    }

    /// Sets the parameters contract consulted for the upgrade delay; the
    /// admin authorizes.
    pub fn set_parameters_contract(&mut self, address: Address) -> (r: Result<
        (),
        LiquidityPoolError,
    >)
        ensures
            r is Err <==> old(self).admin is None,
            r is Err ==> r->Err_0 == LiquidityPoolError::NotInitialized && *final(self) == *old(
                self),
            r is Ok ==> *final(self) == (LiquidityPoolContract {
                parameters_contract: Some(address),
                ..*old(self)
            }),
    {
        let _admin = self.get_admin()?;
        self.parameters_contract = Some(address);
        Ok(())
    }

    /// Records a code upgrade proposal that unlocks `delay` seconds after
    /// `now` (the admin authorizes; `delay` comes from
    /// `get_upgrade_delay_seconds`). A new proposal replaces the old one.
    pub fn propose_upgrade(&mut self, new_wasm_hash: WasmHash, now: u64, delay: u64) -> (r: Result<
        PendingUpgrade,
        LiquidityPoolError,
    >)
        ensures
            r is Ok <==> old(self).admin is Some && now + delay <= u64::MAX,
            r is Err ==> *final(self) == *old(self) && r->Err_0 == (if old(self).admin is None {
                LiquidityPoolError::NotInitialized
            } else {
                LiquidityPoolError::Overflow
            }),
            r is Ok ==> r->Ok_0.wasm_hash@ == new_wasm_hash@ && r->Ok_0.proposed_at == now
                && r->Ok_0.unlock_at == now + delay && *final(self) == (LiquidityPoolContract {
                pending_upgrade: Some(r->Ok_0),
                ..*old(self)
            }),
    {
        let _admin = self.get_admin()?;
        let unlock_at = match now.checked_add(delay) {
            Some(u) => u,
            None => {
                return Err(LiquidityPoolError::Overflow);
            },
        };
        let pending = PendingUpgrade { wasm_hash: new_wasm_hash, proposed_at: now, unlock_at };
        self.pending_upgrade = Some(pending);
        Ok(pending)
    }

    /// Every check `execute_upgrade` performs, in order.
    pub open spec fn spec_execute_upgrade(self, new_wasm_hash: WasmHash, now: u64) -> Result<
        (),
        LiquidityPoolError,
    > {
        if self.admin is None {
            Err(LiquidityPoolError::NotInitialized)
        } else if self.pending_upgrade is None {
            Err(LiquidityPoolError::UpgradeNotProposed)
        } else if self.pending_upgrade->Some_0.wasm_hash@ != new_wasm_hash@ {
            Err(LiquidityPoolError::UpgradeHashMismatch)
        } else if now < self.pending_upgrade->Some_0.unlock_at {
            Err(LiquidityPoolError::UpgradeTimelockNotMet)
        } else if self.version == u32::MAX {
            Err(LiquidityPoolError::Overflow)
        } else {
            Ok(())
        }
    }

    /// Carries out the proposed upgrade once its timelock has passed and the
    /// hash matches the proposal; the version goes up by one and the
    /// proposal is cleared. Returns `(old_version, new_version)`.
    pub fn execute_upgrade(&mut self, new_wasm_hash: WasmHash, now: u64) -> (r: Result<
        (u32, u32),
        LiquidityPoolError,
    >)
        ensures
            ({
                let c = old(self).spec_execute_upgrade(new_wasm_hash, now);
                &&& r is Ok <==> c is Ok
                &&& r is Err ==> r->Err_0 == c->Err_0 && *final(self) == *old(self)
                &&& r is Ok ==> r->Ok_0 == (old(self).version, (old(self).version + 1) as u32)
                    && *final(self) == (LiquidityPoolContract {
                    version: (old(self).version + 1) as u32,
                    pending_upgrade: None,
                    ..*old(self)
                })
            }),
    {
        let _admin = self.get_admin()?;
        let pending = match self.pending_upgrade {
            Some(p) => p,
            None => {
                return Err(LiquidityPoolError::UpgradeNotProposed);
            },
        };
        if !hashes_equal(&pending.wasm_hash, &new_wasm_hash) {
            return Err(LiquidityPoolError::UpgradeHashMismatch);
        }
        if now < pending.unlock_at {
            return Err(LiquidityPoolError::UpgradeTimelockNotMet);
        }
        let old_version = self.version;
        let new_version = match old_version.checked_add(1) {
            Some(v) => v,
            None => {
                return Err(LiquidityPoolError::Overflow);
            },
        };
        self.version = new_version;
        self.pending_upgrade = None;
        Ok((old_version, new_version))
    }

    /// Same as `execute_upgrade`: an upgrade always goes through the
    /// timelocked proposal.
    pub fn upgrade(&mut self, new_wasm_hash: WasmHash, now: u64) -> (r: Result<
        (u32, u32),
        LiquidityPoolError,
    >)
        ensures
            ({
                let c = old(self).spec_execute_upgrade(new_wasm_hash, now);
                &&& r is Ok <==> c is Ok
                &&& r is Err ==> r->Err_0 == c->Err_0 && *final(self) == *old(self)
                &&& r is Ok ==> r->Ok_0 == (old(self).version, (old(self).version + 1) as u32)
                    && *final(self) == (LiquidityPoolContract {
                    version: (old(self).version + 1) as u32,
                    pending_upgrade: None,
                    ..*old(self)
                })
            }),
    {
        self.execute_upgrade(new_wasm_hash, now)
    }

    /// Engages the emergency stop. Admin only.
    pub fn pause(&mut self, admin: Address) -> (r: Result<(), LiquidityPoolError>)
        ensures
            r == old(self).spec_require_admin(admin),
            r is Err ==> *final(self) == *old(self),
            r is Ok ==> *final(self) == (LiquidityPoolContract { paused: true, ..*old(self) }),
    {
        self.require_admin(admin)?;
        self.paused = true;
        Ok(())
    }

    /// Releases the emergency stop. Admin only.
    pub fn unpause(&mut self, admin: Address) -> (r: Result<(), LiquidityPoolError>)
        ensures
            r == old(self).spec_require_admin(admin),
            r is Err ==> *final(self) == *old(self),
            r is Ok ==> *final(self) == (LiquidityPoolContract { paused: false, ..*old(self) }),
    {
        self.require_admin(admin)?;
        self.paused = false;
        Ok(())
    }
}

} // verus!
