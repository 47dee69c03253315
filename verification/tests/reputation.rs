use stepfi::reputation::contract::ReputationContract;
use stepfi::reputation::errors::ReputationError;
use stepfi::reputation::safe_math::{add_u32, sub_u32};
use stepfi::reputation::types::MAX_SCORE;

const ADMIN: u64 = 1;
const UPDATER: u64 = 2;
const USER: u64 = 3;

fn setup() -> ReputationContract {
    let mut c = ReputationContract::new();
    c.initialize(ADMIN).unwrap();
    c.set_updater(ADMIN, UPDATER, true).unwrap();
    c
}

#[test]
fn version_tag() {
    assert_eq!(ReputationContract::get_version(), "v1_0_0");
}

#[test]
fn unknown_user_has_score_zero() {
    let c = setup();
    assert_eq!(c.get_score(USER), 0);
}

#[test]
fn increase_and_decrease() {
    let mut c = setup();
    c.increase_score(UPDATER, USER, 40).unwrap();
    assert_eq!(c.get_score(USER), 40);
    c.decrease_score(UPDATER, USER, 15).unwrap();
    assert_eq!(c.get_score(USER), 25);
}

#[test]
fn increase_past_max_is_overflow() {
    let mut c = setup();
    c.increase_score(UPDATER, USER, 90).unwrap();
    assert_eq!(c.increase_score(UPDATER, USER, 11), Err(ReputationError::Overflow));
    assert_eq!(c.increase_score(UPDATER, USER, u32::MAX), Err(ReputationError::Overflow));
    assert_eq!(c.get_score(USER), 90);
    c.increase_score(UPDATER, USER, 10).unwrap();
    assert_eq!(c.get_score(USER), MAX_SCORE);
}

#[test]
fn decrease_below_zero_is_underflow() {
    let mut c = setup();
    c.increase_score(UPDATER, USER, 5).unwrap();
    assert_eq!(c.decrease_score(UPDATER, USER, 6), Err(ReputationError::Underflow));
    assert_eq!(c.get_score(USER), 5);
}

#[test]
fn set_score_bounds() {
    let mut c = setup();
    assert_eq!(c.set_score(UPDATER, USER, 101), Err(ReputationError::OutOfBounds));
    c.set_score(UPDATER, USER, 100).unwrap();
    assert_eq!(c.get_score(USER), 100);
}

#[test]
fn only_updaters_change_scores() {
    let mut c = setup();
    assert_eq!(c.increase_score(9, USER, 1), Err(ReputationError::NotUpdater));
    assert_eq!(c.decrease_score(9, USER, 1), Err(ReputationError::NotUpdater));
    assert_eq!(c.set_score(9, USER, 1), Err(ReputationError::NotUpdater));
    assert_eq!(c.add_boost(9, USER, 1), Err(ReputationError::NotUpdater));
    assert_eq!(c.remove_boost(9, USER, 1), Err(ReputationError::NotUpdater));
    assert_eq!(c.require_updater(9), Err(ReputationError::NotUpdater));
    assert_eq!(c.require_updater(UPDATER), Ok(()));
}

#[test]
fn boost_round_trip_restores_score() {
    let mut c = setup();
    c.set_score(UPDATER, USER, 42).unwrap();
    c.add_boost(UPDATER, USER, 10).unwrap();
    assert_eq!(c.get_score(USER), 52);
    c.remove_boost(UPDATER, USER, 10).unwrap();
    assert_eq!(c.get_score(USER), 42);
}

#[test]
fn updater_role_management() {
    let mut c = setup();
    assert!(c.is_updater(UPDATER));
    assert_eq!(c.set_updater(9, 7, true), Err(ReputationError::NotAdmin));
    c.set_updater(ADMIN, UPDATER, false).unwrap();
    assert!(!c.is_updater(UPDATER));
}

#[test]
fn admin_lifecycle() {
    let mut c = ReputationContract::new();
    assert_eq!(c.get_admin(), Err(ReputationError::NotInitialized));
    assert_eq!(c.set_admin(5), Err(ReputationError::NotInitialized));
    assert_eq!(c.set_updater(ADMIN, UPDATER, true), Err(ReputationError::NotInitialized));
    assert_eq!(c.upgrade(), Err(ReputationError::NotInitialized));
    c.initialize(ADMIN).unwrap();
    assert_eq!(c.initialize(5), Err(ReputationError::AlreadyInitialized));
    c.set_admin(5).unwrap();
    assert_eq!(c.get_admin(), Ok(5));
    assert_eq!(c.upgrade(), Ok(()));
}

#[test]
fn reentrancy_is_refused() {
    let mut c = setup();
    c.reentrancy_locked = true;
    assert_eq!(c.increase_score(UPDATER, USER, 1), Err(ReputationError::ReentrancyDetected));
    assert_eq!(c.set_score(UPDATER, USER, 1), Err(ReputationError::ReentrancyDetected));
    assert_eq!(c.set_admin(7), Err(ReputationError::ReentrancyDetected));
    assert_eq!(c.upgrade(), Err(ReputationError::ReentrancyDetected));
}

#[test]
fn reputation_safe_math() {
    assert_eq!(add_u32(1, 2), Ok(3));
    assert_eq!(add_u32(u32::MAX, 1), Err(ReputationError::Overflow));
    assert_eq!(sub_u32(3, 1), Ok(2));
    assert_eq!(sub_u32(1, 3), Err(ReputationError::Underflow));
}

#[test]
fn replaying_stored_scores_keeps_them_in_range() {
    let mut c = ReputationContract::new();
    assert!(c.restore_score(USER, MAX_SCORE));
    assert_eq!(c.get_score(USER), MAX_SCORE);
    assert!(!c.restore_score(USER, MAX_SCORE + 1));
    assert_eq!(c.get_score(USER), MAX_SCORE);
}
