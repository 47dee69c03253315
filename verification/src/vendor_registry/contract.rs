use vstd::prelude::*;
use std::collections::HashMap;
use crate::Address;
use super::errors::Error;
use super::safe_math::add_u64;
use super::types::{VendorInfo, VendorStatus, MAX_NAME_LEN};

verus! {

broadcast use vstd::std_specs::hash::group_hash_axioms;

/// Storage of the vendor registry.
pub struct VendorRegistryContract {
    pub admin: Option<Address>,
    pub vendors: HashMap<Address, VendorInfo>,
    /// Number of registered vendors.
    pub vendor_count: u64,
    pub reentrancy_locked: bool,
    pub version: u32,
}

/// Whether `name` is an acceptable vendor name: 1 to 64 bytes.
pub open spec fn spec_valid_name(name: Seq<u8>) -> bool {
    0 < name.len() <= MAX_NAME_LEN
}

impl VendorRegistryContract {
    /// The counter equals the number of registered vendors, and every
    /// recorded name is valid.
    pub open spec fn wf(self) -> bool {
        &&& self.vendor_count == self.vendors@.len()
        &&& forall|v: Address| #[trigger]
            self.vendors@.contains_key(v) ==> spec_valid_name(self.vendors@[v].name@)
    }

    /// Whether `vendor` may receive loan funds: registered and approved.
    pub open spec fn spec_is_active(self, vendor: Address) -> bool {
        self.vendors@.contains_key(vendor) && self.vendors@[vendor].status == VendorStatus::Approved
    }

    /// `caller` must be the admin.
    pub open spec fn spec_admin_check(self, caller: Address) -> Result<(), Error> {
        match self.admin {
            None => Err(Error::NotInitialized),
            Some(a) => if a == caller {
                Ok(())
            } else {
                Err(Error::Unauthorized)
            },
        }
    }

    /// Every check `register_vendor` performs, in order.
    pub open spec fn spec_register(self, admin: Address, vendor: Address, name: Seq<u8>) -> Result<
        (),
        Error,
    > {
        if self.spec_admin_check(admin) is Err {
            self.spec_admin_check(admin)
        } else if self.vendors@.contains_key(vendor) {
            Err(Error::VendorAlreadyRegistered)
        } else if !spec_valid_name(name) {
            Err(Error::InvalidName)
        } else if self.reentrancy_locked {
            Err(Error::ReentrancyDetected)
        } else if self.vendor_count == u64::MAX {
            Err(Error::Overflow)
        } else {
            Ok(())
        }
    }

    /// Every check a status change performs, in order; `from_pending_only`
    /// is set for `approve_vendor`.
    pub open spec fn spec_status_change(
        self,
        admin: Address,
        vendor: Address,
        from_pending_only: bool,
    ) -> Result<(), Error> {
        if self.spec_admin_check(admin) is Err {
            self.spec_admin_check(admin)
        } else if self.reentrancy_locked {
            Err(Error::ReentrancyDetected)
        } else if !self.vendors@.contains_key(vendor) {
            Err(Error::VendorNotFound)
        } else if from_pending_only && self.vendors@[vendor].status != VendorStatus::Pending {
            Err(Error::VendorNotPending)
        } else {
            Ok(())
        }
    }

    /// How a status change leaves the storage: on success only `vendor`'s
    /// status changes, to `status`; on failure nothing changes.
    pub open spec fn status_update(
        old: Self,
        new: Self,
        vendor: Address,
        status: VendorStatus,
        check: Result<(), Error>,
        r: Result<(), Error>,
    ) -> bool {
        &&& r == check
        &&& r is Err ==> new == old
        &&& r is Ok ==> new == (VendorRegistryContract { vendors: new.vendors, ..old })
            && new.vendors@ == old.vendors@.insert(
            vendor,
            VendorInfo { status, ..old.vendors@[vendor] },
        )
    }

    /// The version after an upgrade from `v`: one more, saturating.
    pub open spec fn spec_next_version(v: u32) -> u32 {
        if v < u32::MAX {
            (v + 1) as u32
        } else {
            v
        }
    }

    /// A freshly deployed registry: no admin, no vendors, version 1.
    pub fn new() -> (c: Self)
        ensures
            c.wf(),
            c.admin is None,
            c.vendors@ == Map::<Address, VendorInfo>::empty(),
            c.vendor_count == 0,
            !c.reentrancy_locked,
            c.version == 1,
    {
        VendorRegistryContract {
            admin: None,
            vendors: HashMap::new(),
            vendor_count: 0,
            reentrancy_locked: false,
            version: 1,
        }
    }

    /// One-time setup of the admin (the admin authorizes).
    pub fn initialize(&mut self, admin: Address) -> (r: Result<(), Error>)
        requires
            old(self).wf(),
        ensures
            final(self).wf(),
            r is Ok <==> old(self).admin is None,
            r is Err ==> *final(self) == *old(self) && r->Err_0 == Error::AlreadyInitialized,
            r is Ok ==> *final(self) == (VendorRegistryContract { admin: Some(admin), ..*old(self) }),
    {
        if self.admin.is_some() {
            return Err(Error::AlreadyInitialized);
        }
        self.admin = Some(admin);
        Ok(())
    }

    /// `caller` must be the admin.
    fn require_admin(&self, caller: Address) -> (r: Result<(), Error>)
        ensures
            r == self.spec_admin_check(caller),
    {
        match self.admin {
            None => Err(Error::NotInitialized),
            Some(a) => if a == caller {
                Ok(())
            } else {
                Err(Error::Unauthorized)
            },
        }
    }

    /// Registers `vendor` under `name` at ledger time `now`, as `Pending`
    /// (the admin authorizes).
    pub fn register_vendor(&mut self, admin: Address, vendor: Address, name: Vec<u8>, now: u64) -> (r:
        Result<(), Error>)
        requires
            old(self).wf(),
        ensures
            final(self).wf(),
            r == old(self).spec_register(admin, vendor, name@),
            r is Err ==> *final(self) == *old(self),
            r is Ok ==> {
                let info = final(self).vendors@[vendor];
                &&& final(self).vendors@ == old(self).vendors@.insert(vendor, info)
                &&& info.name@ == name@
                &&& info.registration_date == now
                &&& info.status == VendorStatus::Pending
                &&& info.total_sales == 0
                &&& final(self).vendor_count == old(self).vendor_count + 1
                &&& final(self).admin == old(self).admin
                &&& final(self).reentrancy_locked == old(self).reentrancy_locked
                &&& final(self).version == old(self).version
            },
    {
        self.require_admin(admin)?;
        if self.vendors.contains_key(&vendor) {
            return Err(Error::VendorAlreadyRegistered);
        }
        if name.len() == 0 || name.len() > MAX_NAME_LEN {
            return Err(Error::InvalidName);
        }
        if self.reentrancy_locked {
            return Err(Error::ReentrancyDetected);
        }
        let next = add_u64(self.vendor_count, 1)?;
        let ghost old_vendors = self.vendors@;
        let info = VendorInfo {
            name,
            registration_date: now,
            status: VendorStatus::Pending,
            total_sales: 0,
        };
        self.vendors.insert(vendor, info);
        self.vendor_count = next;
        proof {
            assert(!old_vendors.dom().contains(vendor));
            assert(self.vendors@.dom() == old_vendors.dom().insert(vendor));
        }
        Ok(())
    }

    /// Replays a stored vendor record. Returns false, changing nothing, for
    /// a vendor already present, an invalid name, or a full counter.
    pub fn restore_vendor(&mut self, vendor: Address, info: VendorInfo) -> (accepted: bool)
        requires
            old(self).wf(),
        ensures
            final(self).wf(),
            accepted == (!old(self).vendors@.contains_key(vendor) && spec_valid_name(info.name@)
                && old(self).vendor_count < u64::MAX),
            accepted ==> final(self).vendors@ == old(self).vendors@.insert(vendor, info)
                && final(self).vendor_count == old(self).vendor_count + 1,
            !accepted ==> final(self).vendors@ == old(self).vendors@ && final(self).vendor_count
                == old(self).vendor_count,
            final(self).admin == old(self).admin,
            final(self).reentrancy_locked == old(self).reentrancy_locked,
            final(self).version == old(self).version,
    {
        if self.vendors.contains_key(&vendor) {
            return false;
        }
        if info.name.len() == 0 || info.name.len() > MAX_NAME_LEN {
            return false;
        }
        if self.vendor_count == u64::MAX {
            return false;
        }
        let ghost old_vendors = self.vendors@;
        self.vendors.insert(vendor, info);
        self.vendor_count = self.vendor_count + 1;
        proof {
            assert(!old_vendors.dom().contains(vendor));
            assert(self.vendors@.dom() == old_vendors.dom().insert(vendor));
        }
        true
    }

    /// Sets `vendor`'s status to `status` after the checks of
    /// `spec_status_change`.
    fn change_status(
        &mut self,
        admin: Address,
        vendor: Address,
        status: VendorStatus,
        from_pending_only: bool,
    ) -> (r: Result<(), Error>)
        requires
            old(self).wf(),
        ensures
            final(self).wf(),
            Self::status_update(
                *old(self),
                *final(self),
                vendor,
                status,
                old(self).spec_status_change(admin, vendor, from_pending_only),
                r,
            ),
    {
        self.require_admin(admin)?;
        if self.reentrancy_locked {
            return Err(Error::ReentrancyDetected);
        }
        let current = match self.vendors.get(&vendor) {
            Some(info) => info.status,
            None => {
                return Err(Error::VendorNotFound);
            },
        };
        if from_pending_only && current != VendorStatus::Pending {
            return Err(Error::VendorNotPending);
        }
        let ghost old_vendors = self.vendors@;
        let mut info = self.vendors.remove(&vendor).unwrap();
        info.status = status;
        self.vendors.insert(vendor, info);
        proof {
            assert(self.vendors@ =~= old_vendors.insert(
                vendor,
                VendorInfo { status, ..old_vendors[vendor] },
            ));
            assert(self.vendors@.dom() =~= old_vendors.dom());
        }
        Ok(())
    }

    /// Approves a pending vendor so it may receive loans; `VendorNotPending`
    /// for any other status.
    pub fn approve_vendor(&mut self, admin: Address, vendor: Address) -> (r: Result<(), Error>)
        requires
            old(self).wf(),
        ensures
            final(self).wf(),
            Self::status_update(
                *old(self),
                *final(self),
                vendor,
                VendorStatus::Approved,
                old(self).spec_status_change(admin, vendor, true),
                r,
            ),
    {
        self.change_status(admin, vendor, VendorStatus::Approved, true)
    }

    /// Suspends a vendor, whatever its status, so it receives no new loans.
    pub fn suspend_vendor(&mut self, admin: Address, vendor: Address) -> (r: Result<(), Error>)
        requires
            old(self).wf(),
        ensures
            final(self).wf(),
            Self::status_update(
                *old(self),
                *final(self),
                vendor,
                VendorStatus::Suspended,
                old(self).spec_status_change(admin, vendor, false),
                r,
            ),
    {
        self.change_status(admin, vendor, VendorStatus::Suspended, false)
    }

    /// Older name for `suspend_vendor`.
    pub fn deactivate_vendor(&mut self, admin: Address, vendor: Address) -> (r: Result<(), Error>)
        requires
            old(self).wf(),
        ensures
            final(self).wf(),
            Self::status_update(
                *old(self),
                *final(self),
                vendor,
                VendorStatus::Suspended,
                old(self).spec_status_change(admin, vendor, false),
                r,
            ),
    {
        self.change_status(admin, vendor, VendorStatus::Suspended, false)
    }

    /// Approves a vendor whatever its status (older entry point).
    pub fn activate_vendor(&mut self, admin: Address, vendor: Address) -> (r: Result<(), Error>)
        requires
            old(self).wf(),
        ensures
            final(self).wf(),
            Self::status_update(
                *old(self),
                *final(self),
                vendor,
                VendorStatus::Approved,
                old(self).spec_status_change(admin, vendor, false),
                r,
            ),
    {
        self.change_status(admin, vendor, VendorStatus::Approved, false)
    }

    /// Approves (`active`) or suspends a vendor whatever its status (older
    /// entry point).
    pub fn set_vendor_status(&mut self, admin: Address, vendor: Address, active: bool) -> (r:
        Result<(), Error>)
        requires
            old(self).wf(),
        ensures
            final(self).wf(),
            Self::status_update(
                *old(self),
                *final(self),
                vendor,
                if active {
                    VendorStatus::Approved
                } else {
                    VendorStatus::Suspended
                },
                old(self).spec_status_change(admin, vendor, false),
                r,
            ),
    {
        let status = if active {
            VendorStatus::Approved
        } else {
            VendorStatus::Suspended
        };
        self.change_status(admin, vendor, status, false)
    }

    /// Whether `vendor` may receive loan funds: registered and approved.
    pub fn is_active(&self, vendor: Address) -> (r: bool)
        ensures
            r == self.spec_is_active(vendor),
    {
        match self.vendors.get(&vendor) {
            Some(info) => info.status == VendorStatus::Approved,
            None => false,
        }
    }

    /// The record of `vendor`.
    pub fn get_vendor_info(&self, vendor: Address) -> (r: Result<&VendorInfo, Error>)
        ensures
            self.admin is None ==> r == Err::<&VendorInfo, Error>(Error::NotInitialized),
            self.admin is Some && !self.vendors@.contains_key(vendor) ==> r == Err::<
                &VendorInfo,
                Error,
            >(Error::VendorNotFound),
            self.admin is Some && self.vendors@.contains_key(vendor) ==> r is Ok && *r->Ok_0
                == self.vendors@[vendor],
    {
        if self.admin.is_none() {
            return Err(Error::NotInitialized);
        }
        match self.vendors.get(&vendor) {
            Some(info) => Ok(info),
            None => Err(Error::VendorNotFound),
        }
    }

    /// Number of registered vendors.
    pub fn get_vendor_count(&self) -> (r: Result<u64, Error>)
        ensures
            r == if self.admin is None {
                Err(Error::NotInitialized)
            } else {
                Ok(self.vendor_count)
            },
    {
        if self.admin.is_none() {
            return Err(Error::NotInitialized);
        }
        Ok(self.vendor_count)
    }

    /// Contract version (1 until the first upgrade).
    pub fn get_version(&self) -> (r: u32)
        ensures
            r == self.version,
    {
        self.version
    }

    /// Records a code upgrade (the admin authorizes; the caller installs the
    /// code) and returns `(old_version, new_version)`.
    pub fn upgrade(&mut self) -> (r: Result<(u32, u32), Error>)
        requires
            old(self).wf(),
        ensures
            final(self).wf(),
            r is Ok <==> old(self).admin is Some,
            r is Err ==> *final(self) == *old(self) && r->Err_0 == Error::NotInitialized,
            r is Ok ==> r->Ok_0 == (old(self).version, Self::spec_next_version(old(self).version))
                && *final(self) == (VendorRegistryContract {
                version: Self::spec_next_version(old(self).version),
                ..*old(self)
            }),
    {
        if self.admin.is_none() {
            return Err(Error::NotInitialized);
        }
        let old_version = self.version;
        let new_version = if old_version < u32::MAX {
            old_version + 1
        } else {
            old_version
        };
        self.version = new_version;
        Ok((old_version, new_version))
    }
}

/// A successful status change decides whether the vendor may receive
/// funds: it may exactly when the new status is `Approved`; every other
/// vendor keeps its standing.
pub proof fn lemma_status_change_decides_activity(
    before: VendorRegistryContract,
    after: VendorRegistryContract,
    admin: Address,
    vendor: Address,
    status: VendorStatus,
    from_pending_only: bool,
)
    requires
        VendorRegistryContract::status_update(
            before,
            after,
            vendor,
            status,
            before.spec_status_change(admin, vendor, from_pending_only),
            Ok(()),
        ),
    ensures
        after.spec_is_active(vendor) <==> status == VendorStatus::Approved,
        forall|v: Address| v != vendor ==> after.spec_is_active(v) == before.spec_is_active(v),
{
}

} // verus!
