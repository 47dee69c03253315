use stepfi::vendor_registry::contract::VendorRegistryContract;
use stepfi::vendor_registry::errors::Error;
use stepfi::vendor_registry::safe_math::{add_u64, sub_u64};
use stepfi::vendor_registry::types::VendorStatus;
use stepfi::vendor_registry::VendorRegistryError;

const ADMIN: u64 = 1;
const VENDOR: u64 = 2;

fn name(s: &str) -> Vec<u8> {
    s.as_bytes().to_vec()
}

fn setup() -> VendorRegistryContract {
    let mut c = VendorRegistryContract::new();
    c.initialize(ADMIN).unwrap();
    c
}

fn status(c: &VendorRegistryContract, v: u64) -> VendorStatus {
    c.get_vendor_info(v).unwrap().status
}

#[test]
fn test_initialization() {
    let mut c = VendorRegistryContract::new();
    c.initialize(ADMIN).unwrap();

    let res = c.initialize(ADMIN);
    assert!(res.is_err());
    assert_eq!(res, Err(Error::AlreadyInitialized));
}

#[test]
fn test_get_vendor_count_before_initialize_returns_typed_error() {
    let c = VendorRegistryContract::new();

    assert_eq!(c.get_vendor_count(), Err(Error::NotInitialized));
}

#[test]
fn test_registration_flow() {
    let mut c = setup();

    c.register_vendor(ADMIN, VENDOR, name("Galaxy Tech Supplies"), 1000000).unwrap();

    assert!(!c.is_active(VENDOR));
    let info = c.get_vendor_info(VENDOR).unwrap();
    assert_eq!(info.name, name("Galaxy Tech Supplies"));
    assert_eq!(info.registration_date, 1000000);
    assert_eq!(info.status, VendorStatus::Pending);
    assert_eq!(info.total_sales, 0);
    assert_eq!(c.get_vendor_count(), Ok(1));
}

#[test]
fn test_duplicate_prevention() {
    let mut c = setup();

    c.register_vendor(ADMIN, VENDOR, name("Stellar Books"), 0).unwrap();
    let res = c.register_vendor(ADMIN, VENDOR, name("Stellar Books"), 0);
    assert!(res.is_err());
    assert_eq!(res, Err(Error::VendorAlreadyRegistered));
}

#[test]
fn test_admin_only_access() {
    let mut c = setup();
    let fake_admin = 99;

    let res = c.register_vendor(fake_admin, VENDOR, name("Rogue Vendor"), 0);
    assert!(res.is_err());
    assert_eq!(res, Err(Error::Unauthorized));
}

#[test]
fn test_activation_and_deactivation() {
    let mut c = setup();
    c.register_vendor(ADMIN, VENDOR, name("Nebula Cafe"), 0).unwrap();

    assert!(!c.is_active(VENDOR));
    assert_eq!(status(&c, VENDOR), VendorStatus::Pending);

    c.approve_vendor(ADMIN, VENDOR).unwrap();
    assert!(c.is_active(VENDOR));
    assert_eq!(status(&c, VENDOR), VendorStatus::Approved);

    c.suspend_vendor(ADMIN, VENDOR).unwrap();
    assert!(!c.is_active(VENDOR));
    assert_eq!(status(&c, VENDOR), VendorStatus::Suspended);

    c.activate_vendor(ADMIN, VENDOR).unwrap();
    assert!(c.is_active(VENDOR));
    assert_eq!(status(&c, VENDOR), VendorStatus::Approved);
}

#[test]
fn test_set_vendor_status() {
    let mut c = setup();
    c.register_vendor(ADMIN, VENDOR, name("Quasar Goods"), 0).unwrap();

    assert!(!c.is_active(VENDOR));
    assert_eq!(status(&c, VENDOR), VendorStatus::Pending);

    c.set_vendor_status(ADMIN, VENDOR, false).unwrap();
    assert!(!c.is_active(VENDOR));
    assert_eq!(status(&c, VENDOR), VendorStatus::Suspended);

    c.set_vendor_status(ADMIN, VENDOR, true).unwrap();
    assert!(c.is_active(VENDOR));
    assert_eq!(status(&c, VENDOR), VendorStatus::Approved);

    let fake_admin = 99;
    let res = c.set_vendor_status(fake_admin, VENDOR, false);
    assert!(res.is_err());
}

#[test]
fn test_approve_vendor_sets_status_to_approved() {
    let mut c = setup();
    c.register_vendor(ADMIN, VENDOR, name("Approve Me"), 0).unwrap();

    assert_eq!(status(&c, VENDOR), VendorStatus::Pending);
    c.approve_vendor(ADMIN, VENDOR).unwrap();
    assert_eq!(status(&c, VENDOR), VendorStatus::Approved);
    assert!(c.is_active(VENDOR));
}

#[test]
fn test_approve_vendor_rejects_non_pending() {
    let mut c = setup();
    c.register_vendor(ADMIN, VENDOR, name("Already Approved"), 0).unwrap();
    c.approve_vendor(ADMIN, VENDOR).unwrap();

    assert_eq!(c.approve_vendor(ADMIN, VENDOR), Err(Error::VendorNotPending));
}

#[test]
fn test_suspend_vendor_sets_status_to_suspended() {
    let mut c = setup();
    c.register_vendor(ADMIN, VENDOR, name("Suspend Me"), 0).unwrap();
    c.approve_vendor(ADMIN, VENDOR).unwrap();

    assert!(c.is_active(VENDOR));
    c.suspend_vendor(ADMIN, VENDOR).unwrap();
    assert_eq!(status(&c, VENDOR), VendorStatus::Suspended);
    assert!(!c.is_active(VENDOR));
}

#[test]
fn test_suspended_vendor_can_be_approved_again() {
    let mut c = setup();
    c.register_vendor(ADMIN, VENDOR, name("Back and Forth"), 0).unwrap();
    c.approve_vendor(ADMIN, VENDOR).unwrap();
    c.suspend_vendor(ADMIN, VENDOR).unwrap();

    assert!(!c.is_active(VENDOR));
    c.activate_vendor(ADMIN, VENDOR).unwrap();
    assert!(c.is_active(VENDOR));
    assert_eq!(status(&c, VENDOR), VendorStatus::Approved);
}

#[test]
fn test_reentrancy_guard_on_register_vendor() {
    let mut c = setup();
    c.reentrancy_locked = true;

    let res = c.register_vendor(ADMIN, VENDOR, name("Test"), 0);
    assert_eq!(res, Err(Error::ReentrancyDetected));
}

#[test]
fn test_reentrancy_guard_on_deactivate_vendor() {
    let mut c = setup();
    c.register_vendor(ADMIN, VENDOR, name("Test"), 0).unwrap();
    c.reentrancy_locked = true;

    assert_eq!(c.deactivate_vendor(ADMIN, VENDOR), Err(Error::ReentrancyDetected));
}

#[test]
fn test_reentrancy_guard_on_activate_vendor() {
    let mut c = setup();
    c.register_vendor(ADMIN, VENDOR, name("Test"), 0).unwrap();
    c.deactivate_vendor(ADMIN, VENDOR).unwrap();
    c.reentrancy_locked = true;

    assert_eq!(c.activate_vendor(ADMIN, VENDOR), Err(Error::ReentrancyDetected));
}

#[test]
fn test_reentrancy_guard_on_set_vendor_status() {
    let mut c = setup();
    c.register_vendor(ADMIN, VENDOR, name("Test"), 0).unwrap();
    c.reentrancy_locked = true;

    assert_eq!(c.set_vendor_status(ADMIN, VENDOR, false), Err(Error::ReentrancyDetected));
}

#[test]
fn test_reentrancy_guard_allows_normal_operations() {
    let mut c = setup();

    c.register_vendor(ADMIN, VENDOR, name("Test"), 0).unwrap();
    c.deactivate_vendor(ADMIN, VENDOR).unwrap();
    c.activate_vendor(ADMIN, VENDOR).unwrap();
    c.set_vendor_status(ADMIN, VENDOR, false).unwrap();
}

#[test]
fn test_reentrancy_guard_is_released_after_call() {
    let mut c = setup();

    c.register_vendor(ADMIN, VENDOR, name("Test"), 0).unwrap();
    assert!(!c.reentrancy_locked);
    c.deactivate_vendor(ADMIN, VENDOR).unwrap();
    c.activate_vendor(ADMIN, VENDOR).unwrap();
}

#[test]
fn test_reentrancy_guard_on_approve_vendor() {
    let mut c = setup();
    c.register_vendor(ADMIN, VENDOR, name("Test"), 0).unwrap();
    c.reentrancy_locked = true;

    assert_eq!(c.approve_vendor(ADMIN, VENDOR), Err(Error::ReentrancyDetected));
}

#[test]
fn test_reentrancy_guard_on_suspend_vendor() {
    let mut c = setup();
    c.register_vendor(ADMIN, VENDOR, name("Test"), 0).unwrap();
    c.approve_vendor(ADMIN, VENDOR).unwrap();
    c.reentrancy_locked = true;

    assert_eq!(c.suspend_vendor(ADMIN, VENDOR), Err(Error::ReentrancyDetected));
}

#[test]
fn test_upgrade_rejected_for_non_admin() {
    let mut c = VendorRegistryContract::new();

    assert_eq!(c.upgrade(), Err(Error::NotInitialized));
    assert_eq!(c.get_version(), 1);
}

#[test]
fn test_admin_upgrade_increments_version_and_emits_event() {
    let mut c = setup();

    assert_eq!(c.get_version(), 1);
    assert_eq!(c.upgrade(), Ok((1, 2)));
    assert_eq!(c.get_version(), 2);
}

// Further cases.

#[test]
fn vendor_names_must_be_one_to_sixty_four_bytes() {
    let mut c = setup();
    assert_eq!(c.register_vendor(ADMIN, VENDOR, Vec::new(), 0), Err(Error::InvalidName));
    assert_eq!(c.register_vendor(ADMIN, VENDOR, vec![b'a'; 65], 0), Err(Error::InvalidName));
    assert_eq!(c.register_vendor(ADMIN, VENDOR, vec![b'a'; 64], 0), Ok(()));
    assert_eq!(c.get_vendor_count(), Ok(1));
}

#[test]
fn vendor_count_tracks_registrations() {
    let mut c = setup();
    for v in 10..15u64 {
        c.register_vendor(ADMIN, v, name("Shop"), 0).unwrap();
    }
    assert_eq!(c.register_vendor(ADMIN, 12, name("Shop"), 0), Err(Error::VendorAlreadyRegistered));
    assert_eq!(c.get_vendor_count(), Ok(5));
}

#[test]
fn status_changes_on_unknown_vendor_fail() {
    let mut c = setup();
    assert_eq!(c.approve_vendor(ADMIN, 77), Err(Error::VendorNotFound));
    assert_eq!(c.suspend_vendor(ADMIN, 77), Err(Error::VendorNotFound));
    assert_eq!(c.get_vendor_info(77).err(), Some(Error::VendorNotFound));
    assert!(!c.is_active(77));
}

#[test]
fn register_before_initialize_fails() {
    let mut c = VendorRegistryContract::new();
    assert_eq!(c.register_vendor(ADMIN, VENDOR, name("X"), 0), Err(Error::NotInitialized));
    assert_eq!(c.get_vendor_info(VENDOR).err(), Some(VendorRegistryError::NotInitialized));
}

#[test]
fn vendor_safe_math() {
    assert_eq!(add_u64(1, 2), Ok(3));
    assert_eq!(add_u64(u64::MAX, 1), Err(Error::Overflow));
    assert_eq!(sub_u64(5, 2), Ok(3));
    assert_eq!(sub_u64(2, 5), Err(Error::Underflow));
}

#[test]
fn replaying_stored_vendors_rebuilds_the_count() {
    let mut c = setup();
    c.register_vendor(ADMIN, VENDOR, name("Shop"), 5).unwrap();
    let info = c.vendors.get(&VENDOR).unwrap().clone();
    let mut r = VendorRegistryContract::new();
    assert!(r.restore_vendor(VENDOR, info.clone()));
    assert_eq!(r.vendor_count, 1);
    assert!(!r.restore_vendor(VENDOR, info.clone()));
    let mut bad = info;
    bad.name = Vec::new();
    assert!(!r.restore_vendor(7, bad));
    assert_eq!(r.vendor_count, 1);
}
