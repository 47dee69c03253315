use vstd::prelude::*;
use crate::Address;
use super::errors::CreditLineError;
use super::storage::CreditLineContract;

verus! {

impl CreditLineContract {
    /// Fields other than the admin and the contract references agree.
    pub open spec fn state_eq_except_config(self, o: Self) -> bool {
        &&& self.ledger_eq(o)
        &&& self.loan_counter == o.loan_counter
        &&& self.reentrancy_locked == o.reentrancy_locked
        &&& self.paused == o.paused
        &&& self.version == o.version
    }

    /// `caller` must be the stored admin.
    pub open spec fn spec_require_admin(self, caller: Address) -> Result<(), CreditLineError> {
        match self.admin {
            None => Err(CreditLineError::NotInitialized),
            Some(a) => if a == caller {
                Ok(())
            } else {
                Err(CreditLineError::NotAdmin)
            },
        }
    }

    /// `caller` must be the stored admin.
    pub fn require_admin(&self, caller: Address) -> (r: Result<(), CreditLineError>)
        ensures
            r == self.spec_require_admin(caller),
    {
        match self.admin {
            None => Err(CreditLineError::NotInitialized),
            Some(a) => if a == caller {
                Ok(())
            } else {
                Err(CreditLineError::NotAdmin)
            },
        }
    }

    /// One-time setup of the admin and the contracts the credit line talks to.
    pub fn initialize(
        &mut self,
        admin: Address,
        reputation_contract: Address,
        vendor_registry: Address,
        liquidity_pool: Address,
        token: Address,
    ) -> (r: Result<(), CreditLineError>)
        ensures
            r is Err <==> old(self).admin is Some,
            r is Err ==> r->Err_0 == CreditLineError::AlreadyInitialized && *final(self) == *old(self),
            r is Ok ==> final(self).admin == Some(admin) && final(self).reputation_contract == Some(
                reputation_contract,
            ) && final(self).vendor_registry == Some(vendor_registry)
                && final(self).liquidity_pool == Some(liquidity_pool) && final(self).token == Some(
                token,
            ) && final(self).parameters_contract == old(self).parameters_contract
                && final(self).state_eq_except_config(*old(self)),
    {
        if self.admin.is_some() {
            return Err(CreditLineError::AlreadyInitialized);
        }
        self.admin = Some(admin);
        self.reputation_contract = Some(reputation_contract);
        self.vendor_registry = Some(vendor_registry);
        self.liquidity_pool = Some(liquidity_pool);
        self.token = Some(token);
        Ok(())
    }

    /// Hands the admin role to `new_admin`; the current admin authorizes.
    pub fn set_admin(&mut self, new_admin: Address) -> (r: Result<(), CreditLineError>)
        ensures
            r is Err <==> old(self).admin is None,
            r is Err ==> r->Err_0 == CreditLineError::NotInitialized && *final(self) == *old(self),
            r is Ok ==> final(self).admin == Some(new_admin) && final(self).state_eq_except_config(
                *old(self),
            ) && final(self).reputation_contract == old(self).reputation_contract
                && final(self).vendor_registry == old(self).vendor_registry
                && final(self).liquidity_pool == old(self).liquidity_pool && final(self).token == old(self).token && final(self).parameters_contract == old(self).parameters_contract,
    {
        let _old_admin = self.get_admin()?;
        self.admin = Some(new_admin);
        Ok(())
    }

    /// Points the credit line at another reputation contract. Admin only.
    pub fn set_reputation_contract(&mut self, admin: Address, address: Address) -> (r: Result<
        (),
        CreditLineError,
    >)
        ensures
            r == old(self).spec_require_admin(admin),
            r is Err ==> *final(self) == *old(self),
            r is Ok ==> final(self).reputation_contract == Some(address) && final(self).state_eq_except_config(*old(self)) && final(self).admin == old(self).admin
                && final(self).vendor_registry == old(self).vendor_registry
                && final(self).liquidity_pool == old(self).liquidity_pool && final(self).token == old(self).token && final(self).parameters_contract == old(self).parameters_contract,
    {
        self.require_admin(admin)?;
        self.reputation_contract = Some(address);
        Ok(())
    }

    /// Points the credit line at another vendor registry. Admin only.
    pub fn set_vendor_registry(&mut self, admin: Address, address: Address) -> (r: Result<
        (),
        CreditLineError,
    >)
        ensures
            r == old(self).spec_require_admin(admin),
            r is Err ==> *final(self) == *old(self),
            r is Ok ==> final(self).vendor_registry == Some(address) && final(self).state_eq_except_config(*old(self)) && final(self).admin == old(self).admin
                && final(self).reputation_contract == old(self).reputation_contract
                && final(self).liquidity_pool == old(self).liquidity_pool && final(self).token == old(self).token && final(self).parameters_contract == old(self).parameters_contract,
    {
        self.require_admin(admin)?;
        self.vendor_registry = Some(address);
        Ok(())
    }

    /// Points the credit line at another liquidity pool. Admin only.
    pub fn set_liquidity_pool(&mut self, admin: Address, address: Address) -> (r: Result<
        (),
        CreditLineError,
    >)
        ensures
            r == old(self).spec_require_admin(admin),
            r is Err ==> *final(self) == *old(self),
            r is Ok ==> final(self).liquidity_pool == Some(address) && final(self).state_eq_except_config(*old(self)) && final(self).admin == old(self).admin
                && final(self).reputation_contract == old(self).reputation_contract
                && final(self).vendor_registry == old(self).vendor_registry && final(self).token
                == old(self).token && final(self).parameters_contract == old(self).parameters_contract,
    {
        self.require_admin(admin)?;
        self.liquidity_pool = Some(address);
        Ok(())
    }

    /// Points the credit line at a parameters contract. Admin only.
    pub fn set_parameters_contract(&mut self, admin: Address, address: Address) -> (r: Result<
        (),
        CreditLineError,
    >)
        ensures
            r == old(self).spec_require_admin(admin),
            r is Err ==> *final(self) == *old(self),
            r is Ok ==> final(self).parameters_contract == Some(address) && final(self).state_eq_except_config(*old(self)) && final(self).admin == old(self).admin
                && final(self).reputation_contract == old(self).reputation_contract
                && final(self).vendor_registry == old(self).vendor_registry
                && final(self).liquidity_pool == old(self).liquidity_pool && final(self).token
                == old(self).token,
    {
        self.require_admin(admin)?;
        self.parameters_contract = Some(address);
        Ok(())
    }

    /// Sets the emergency-stop flag. Admin only.
    pub fn pause(&mut self, admin: Address) -> (r: Result<(), CreditLineError>)
        ensures
            r == old(self).spec_require_admin(admin),
            r is Err ==> *final(self) == *old(self),
            r is Ok ==> final(self).paused && final(self).ledger_eq(*old(self))
                && final(self).loan_counter == old(self).loan_counter && final(self).admin == old(self).admin && final(self).version == old(self).version && final(self).reentrancy_locked
                == old(self).reentrancy_locked,
    {
        self.require_admin(admin)?;
        self.paused = true;
        Ok(())
    }

    /// Clears the emergency-stop flag. Admin only.
    pub fn unpause(&mut self, admin: Address) -> (r: Result<(), CreditLineError>)
        ensures
            r == old(self).spec_require_admin(admin),
            r is Err ==> *final(self) == *old(self),
            r is Ok ==> !final(self).paused && final(self).ledger_eq(*old(self))
                && final(self).loan_counter == old(self).loan_counter && final(self).admin == old(self).admin && final(self).version == old(self).version && final(self).reentrancy_locked
                == old(self).reentrancy_locked,
    {
        self.require_admin(admin)?;
        self.paused = false;
        Ok(())
    }

    /// Whether the emergency stop is engaged.
    pub fn is_paused(&self) -> (r: bool)
        ensures
            r == self.paused,
    {
        self.paused
    }

    /// Contract version (1 until the first upgrade).
    pub fn get_version(&self) -> (r: u32)
        ensures
            r == self.version,
    {
        self.version
    }

    /// Records a code upgrade authorized by the admin: the version goes up by
    /// one (it stays put at `u32::MAX`). Returns `(old_version, new_version)`.
    pub fn upgrade(&mut self) -> (r: Result<(u32, u32), CreditLineError>)
        ensures
            r is Err <==> old(self).admin is None,
            r is Err ==> r->Err_0 == CreditLineError::NotInitialized && *final(self) == *old(self),
            r is Ok ==> r->Ok_0.0 == old(self).version && final(self).version == r->Ok_0.1
                && r->Ok_0.1 == (if old(self).version < u32::MAX {
                (old(self).version + 1) as u32
            } else {
                old(self).version
            }) && final(self).ledger_eq(*old(self)) && final(self).loan_counter == old(self).loan_counter && final(self).admin == old(self).admin && final(self).paused == old(self).paused && final(self).reentrancy_locked == old(self).reentrancy_locked,
    {
        let _admin = self.get_admin()?;
        let old_version = self.version;
        let new_version = match old_version.checked_add(1) {
            Some(v) => v,
            None => old_version,
        };
        self.version = new_version;
        Ok((old_version, new_version))
    }
}

} // verus!
