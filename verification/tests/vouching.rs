use stepfi::reputation::contract::ReputationContract;
use stepfi::vouching::accounting::clamped_removal;
use stepfi::vouching::contract::VouchingContract;
use stepfi::vouching::errors::VouchingError;
use stepfi::vouching::safe_math::{add_u32, sub_u32};
use stepfi::vouching::types::{is_expired, VouchRecord, DEFAULT_VOUCH_BOOST, VOUCH_DURATION};

const ADMIN: u64 = 1;
const MENTOR: u64 = 2;
const LEARNER: u64 = 3;
const REPUTATION: u64 = 50;
const VOUCHING: u64 = 51;
const REP_ADMIN: u64 = 52;

struct Ctx {
    vouching: VouchingContract,
    reputation: ReputationContract,
    now: u64,
}

impl Ctx {
    fn setup() -> Ctx {
        let mut vouching = VouchingContract::new();
        vouching.initialize(ADMIN, REPUTATION, DEFAULT_VOUCH_BOOST).unwrap();
        let mut reputation = ReputationContract::new();
        reputation.initialize(REP_ADMIN).unwrap();
        reputation.set_updater(REP_ADMIN, VOUCHING, true).unwrap();
        Ctx { vouching, reputation, now: 0 }
    }

    fn score(&self) -> u32 {
        self.reputation.get_score(LEARNER)
    }

    fn vouch_for(&mut self, mentor: u64, learner: u64) -> Result<(), VouchingError> {
        let before = self.reputation.get_score(learner);
        let boost = self.vouching.vouch(mentor, learner, self.now, before)?;
        self.reputation.add_boost(VOUCHING, learner, boost).unwrap();
        Ok(())
    }

    fn vouch(&mut self, mentor: u64) -> Result<(), VouchingError> {
        self.vouch_for(mentor, LEARNER)
    }

    fn take_back(&mut self, removed: u32) {
        if removed > 0 {
            self.reputation.remove_boost(VOUCHING, LEARNER, removed).unwrap();
        }
    }

    fn revoke(&mut self, mentor: u64) -> Result<(), VouchingError> {
        let current = self.score();
        let removed = self.vouching.revoke_vouch(mentor, LEARNER, current)?;
        self.take_back(removed);
        Ok(())
    }

    fn expire(&mut self, mentor: u64) -> Result<(), VouchingError> {
        let current = self.score();
        let removed = self.vouching.expire_vouch(mentor, LEARNER, self.now, current)?;
        self.take_back(removed);
        Ok(())
    }
}

#[test]
fn test_initialize_sets_admin() {
    let ctx = Ctx::setup();

    assert_eq!(ctx.vouching.get_admin(), Ok(ADMIN));
}

#[test]
fn test_initialize_rejects_zero_boost() {
    let mut c = VouchingContract::new();

    assert_eq!(c.initialize(ADMIN, REPUTATION, 0), Err(VouchingError::InvalidBoost));
}

#[test]
fn test_set_mentor_verifies_mentor_and_emits_event() {
    let mut ctx = Ctx::setup();

    ctx.vouching.set_mentor(ADMIN, MENTOR, true).unwrap();
    assert!(ctx.vouching.is_mentor(MENTOR));
}

#[test]
fn test_set_mentor_requires_admin() {
    let mut ctx = Ctx::setup();
    let not_admin = 9;

    assert_eq!(ctx.vouching.set_mentor(not_admin, MENTOR, true), Err(VouchingError::NotAdmin));
}

#[test]
fn test_vouch_writes_record_and_adds_reputation_boost() {
    let mut ctx = Ctx::setup();
    ctx.vouching.set_mentor(ADMIN, MENTOR, true).unwrap();

    ctx.vouch(MENTOR).unwrap();

    let vouches = ctx.vouching.get_vouches(LEARNER, ctx.now);
    assert_eq!(vouches.len(), 1);
    let record = vouches[0];
    assert_eq!(record.mentor, MENTOR);
    assert_eq!(record.learner, LEARNER);
    assert_eq!(record.boost_amount, DEFAULT_VOUCH_BOOST);
    assert!(record.active);
    assert_eq!(ctx.score(), DEFAULT_VOUCH_BOOST);
}

#[test]
fn test_vouch_rejects_unverified_mentor() {
    let mut ctx = Ctx::setup();

    assert_eq!(ctx.vouch(MENTOR), Err(VouchingError::MentorNotVerified));
}

#[test]
fn test_vouch_rejects_duplicate_active_vouch() {
    let mut ctx = Ctx::setup();
    ctx.vouching.set_mentor(ADMIN, MENTOR, true).unwrap();
    ctx.vouch(MENTOR).unwrap();

    assert_eq!(ctx.vouch(MENTOR), Err(VouchingError::VouchAlreadyActive));
}

#[test]
fn test_revoke_vouch_marks_inactive_and_removes_reputation_boost() {
    let mut ctx = Ctx::setup();
    ctx.vouching.set_mentor(ADMIN, MENTOR, true).unwrap();
    ctx.vouch(MENTOR).unwrap();

    ctx.revoke(MENTOR).unwrap();

    let record = ctx.vouching.get_vouches(LEARNER, ctx.now)[0];
    assert!(!record.active);
    assert_eq!(ctx.score(), 0);
}

#[test]
fn test_revoke_vouch_rejects_missing_record() {
    let mut ctx = Ctx::setup();

    assert_eq!(ctx.revoke(MENTOR), Err(VouchingError::VouchNotFound));
}

#[test]
fn test_revoke_vouch_rejects_already_inactive_record() {
    let mut ctx = Ctx::setup();
    ctx.vouching.set_mentor(ADMIN, MENTOR, true).unwrap();
    ctx.vouch(MENTOR).unwrap();
    ctx.revoke(MENTOR).unwrap();

    assert_eq!(ctx.revoke(MENTOR), Err(VouchingError::VouchNotActive));
}

#[test]
fn test_events_emitted_for_vouch_and_revoke() {
    let mut ctx = Ctx::setup();
    ctx.vouching.set_mentor(ADMIN, MENTOR, true).unwrap();
    ctx.vouch(MENTOR).unwrap();
    ctx.revoke(MENTOR).unwrap();

    let record = ctx.vouching.get_vouches(LEARNER, ctx.now)[0];
    assert!(!record.active);
    assert_eq!(ctx.score(), 0);
}

#[test]
fn test_expire_vouch_removes_boost_permissionless() {
    let mut ctx = Ctx::setup();
    ctx.vouching.set_mentor(ADMIN, MENTOR, true).unwrap();
    ctx.now = 1_000_000;
    ctx.vouch(MENTOR).unwrap();
    assert_eq!(ctx.score(), DEFAULT_VOUCH_BOOST);

    ctx.now = 1_000_000 + VOUCH_DURATION + 1;
    ctx.expire(MENTOR).unwrap();

    let record = ctx.vouching.get_vouches(LEARNER, ctx.now)[0];
    assert!(!record.active);
    assert_eq!(ctx.score(), 0);
}

#[test]
fn test_expire_vouch_before_ttl_fails() {
    let mut ctx = Ctx::setup();
    ctx.vouching.set_mentor(ADMIN, MENTOR, true).unwrap();
    ctx.now = 1_000_000;
    ctx.vouch(MENTOR).unwrap();

    ctx.now = 1_000_000 + VOUCH_DURATION - 10;
    assert_eq!(ctx.expire(MENTOR), Err(VouchingError::VouchNotExpired));
}

#[test]
fn test_expire_vouch_idempotent() {
    let mut ctx = Ctx::setup();
    ctx.vouching.set_mentor(ADMIN, MENTOR, true).unwrap();
    ctx.now = 1_000_000;
    ctx.vouch(MENTOR).unwrap();

    ctx.now = 1_000_000 + VOUCH_DURATION + 1;
    ctx.expire(MENTOR).unwrap();
    ctx.expire(MENTOR).unwrap();

    assert_eq!(ctx.score(), 0);
    let record = ctx.vouching.get_vouches(LEARNER, ctx.now)[0];
    assert!(!record.active);
}

#[test]
fn test_revoke_after_expiry_fails() {
    let mut ctx = Ctx::setup();
    ctx.vouching.set_mentor(ADMIN, MENTOR, true).unwrap();
    ctx.now = 1_000_000;
    ctx.vouch(MENTOR).unwrap();

    ctx.now = 1_000_000 + VOUCH_DURATION + 1;
    ctx.expire(MENTOR).unwrap();
    assert_eq!(ctx.revoke(MENTOR), Err(VouchingError::VouchNotActive));
}

#[test]
fn test_get_vouches_marks_expired_inactive_without_expire() {
    let mut ctx = Ctx::setup();
    ctx.vouching.set_mentor(ADMIN, MENTOR, true).unwrap();
    ctx.now = 1_000_000;
    ctx.vouch(MENTOR).unwrap();

    ctx.now = 1_000_000 + VOUCH_DURATION + 1;
    let record = ctx.vouching.get_vouches(LEARNER, ctx.now)[0];
    assert!(!record.active);
}

#[test]
fn test_boost_removal_clamped_to_baseline() {
    let mut ctx = Ctx::setup();
    ctx.vouching.set_mentor(ADMIN, MENTOR, true).unwrap();

    // Pre-existing reputation, so the baseline is not zero.
    ctx.reputation.set_updater(REP_ADMIN, REP_ADMIN, true).unwrap();
    ctx.reputation.set_score(REP_ADMIN, LEARNER, 20).unwrap();

    ctx.now = 1_000_000;
    ctx.vouch(MENTOR).unwrap();
    assert_eq!(ctx.score(), 30);

    // A penalty drops the score below the baseline.
    ctx.reputation.decrease_score(REP_ADMIN, LEARNER, 25).unwrap();
    assert_eq!(ctx.score(), 5);

    ctx.now = 1_000_000 + VOUCH_DURATION + 1;
    ctx.expire(MENTOR).unwrap();

    assert_eq!(ctx.score(), 5);
    let record = ctx.vouching.get_vouches(LEARNER, ctx.now)[0];
    assert!(!record.active);
}

#[test]
fn test_boost_config_change_exact_older_larger_expired_first() {
    let mut ctx = Ctx::setup();
    ctx.vouching.set_mentor(ADMIN, MENTOR, true).unwrap();

    ctx.now = 1_000_000;
    ctx.vouch(MENTOR).unwrap();
    assert_eq!(ctx.score(), 10);

    ctx.vouching.vouch_boost = Some(5);
    let mentor2 = 20;
    ctx.vouching.set_mentor(ADMIN, mentor2, true).unwrap();
    ctx.vouch(mentor2).unwrap();
    assert_eq!(ctx.score(), 15);

    ctx.now = 1_000_000 + VOUCH_DURATION + 1;
    ctx.expire(MENTOR).unwrap();
    assert_eq!(ctx.score(), 5);

    ctx.expire(mentor2).unwrap();
    assert_eq!(ctx.score(), 0);
}

#[test]
fn test_boost_config_change_exact_newer_smaller_expired_first() {
    let mut ctx = Ctx::setup();
    ctx.vouching.set_mentor(ADMIN, MENTOR, true).unwrap();

    ctx.now = 1_000_000;
    ctx.vouch(MENTOR).unwrap();
    assert_eq!(ctx.score(), 10);

    ctx.vouching.vouch_boost = Some(5);
    let mentor2 = 20;
    ctx.vouching.set_mentor(ADMIN, mentor2, true).unwrap();
    ctx.vouch(mentor2).unwrap();
    assert_eq!(ctx.score(), 15);

    ctx.now = 1_000_000 + VOUCH_DURATION + 1;
    ctx.expire(mentor2).unwrap();
    assert_eq!(ctx.score(), 10);

    ctx.expire(MENTOR).unwrap();
    assert_eq!(ctx.score(), 0);
}

#[test]
fn test_expire_vouch_on_revoked_record_is_noop_within_ttl() {
    let mut ctx = Ctx::setup();
    ctx.vouching.set_mentor(ADMIN, MENTOR, true).unwrap();
    ctx.now = 1_000_000;
    ctx.vouch(MENTOR).unwrap();
    ctx.revoke(MENTOR).unwrap();
    assert_eq!(ctx.score(), 0);

    ctx.now = 1_000_000 + VOUCH_DURATION - 10;
    ctx.expire(MENTOR).unwrap();

    assert_eq!(ctx.score(), 0);
    let record = ctx.vouching.get_vouches(LEARNER, ctx.now)[0];
    assert!(!record.active);
}

#[test]
fn test_reentrancy_guard_on_vouch() {
    let mut ctx = Ctx::setup();
    ctx.vouching.set_mentor(ADMIN, MENTOR, true).unwrap();
    ctx.vouching.reentrancy_locked = true;

    assert_eq!(ctx.vouch(MENTOR), Err(VouchingError::ReentrancyDetected));
}

#[test]
fn test_reentrancy_guard_on_revoke_vouch() {
    let mut ctx = Ctx::setup();
    ctx.vouching.set_mentor(ADMIN, MENTOR, true).unwrap();
    ctx.vouch(MENTOR).unwrap();
    ctx.vouching.reentrancy_locked = true;

    assert_eq!(ctx.revoke(MENTOR), Err(VouchingError::ReentrancyDetected));
}

#[test]
fn test_reentrancy_guard_on_set_mentor() {
    let mut ctx = Ctx::setup();
    ctx.vouching.reentrancy_locked = true;

    assert_eq!(ctx.vouching.set_mentor(ADMIN, MENTOR, true), Err(VouchingError::ReentrancyDetected));
}

#[test]
fn tests_test_reentrancy_guard_allows_normal_operations() {
    let mut ctx = Ctx::setup();
    ctx.vouching.set_mentor(ADMIN, MENTOR, true).unwrap();
    ctx.vouch(MENTOR).unwrap();

    let record = ctx.vouching.get_vouches(LEARNER, ctx.now)[0];
    assert!(record.active);

    let mentor2 = 20;
    ctx.vouching.set_mentor(ADMIN, mentor2, true).unwrap();
    assert!(ctx.vouching.is_mentor(mentor2));

    ctx.revoke(MENTOR).unwrap();
    let record = ctx.vouching.get_vouches(LEARNER, ctx.now)[0];
    assert!(!record.active);
}

#[test]
fn tests_test_reentrancy_guard_is_released_after_call() {
    let mut ctx = Ctx::setup();
    ctx.vouching.set_mentor(ADMIN, MENTOR, true).unwrap();

    ctx.vouch(MENTOR).unwrap();

    let learner2 = 30;
    let mentor2 = 20;
    ctx.vouching.set_mentor(ADMIN, mentor2, true).unwrap();
    ctx.vouch_for(mentor2, learner2).unwrap();
    assert_eq!(ctx.vouching.get_vouches(learner2, ctx.now).len(), 1);
}

#[test]
fn test_get_version_returns_default() {
    let ctx = Ctx::setup();
    assert_eq!(ctx.vouching.get_version(), 1);
}

#[test]
fn test_upgrade_bumps_version_and_emits_event() {
    let mut ctx = Ctx::setup();

    assert_eq!(ctx.vouching.get_version(), 1);
    assert_eq!(ctx.vouching.upgrade(), Ok((1, 2)));
    assert_eq!(ctx.vouching.get_version(), 2);
}

// Further cases.

#[test]
fn clamped_removal_values() {
    assert_eq!(clamped_removal(30, 20, 10), 10);
    assert_eq!(clamped_removal(25, 20, 10), 5);
    assert_eq!(clamped_removal(5, 20, 10), 0);
    assert_eq!(clamped_removal(100, 0, 7), 7);
}

#[test]
fn expiry_boundaries() {
    assert!(!is_expired(1_000, 1_000 + VOUCH_DURATION));
    assert!(is_expired(1_000, 1_000 + VOUCH_DURATION + 1));
    assert!(!is_expired(u64::MAX - 5, u64::MAX));
}

#[test]
fn aggregate_boost_and_baseline_bookkeeping() {
    let mut ctx = Ctx::setup();
    ctx.vouching.set_mentor(ADMIN, MENTOR, true).unwrap();
    ctx.vouching.set_mentor(ADMIN, 20, true).unwrap();
    ctx.vouch(MENTOR).unwrap();
    ctx.vouch(20).unwrap();
    assert_eq!(ctx.vouching.learner_total_boost.get(&LEARNER), Some(&20));
    assert_eq!(ctx.vouching.learner_baseline.get(&LEARNER), Some(&0));
    ctx.revoke(MENTOR).unwrap();
    assert_eq!(ctx.vouching.learner_total_boost.get(&LEARNER), Some(&10));
    ctx.revoke(20).unwrap();
    assert_eq!(ctx.vouching.learner_total_boost.get(&LEARNER), Some(&0));
    assert_eq!(ctx.vouching.learner_baseline.get(&LEARNER), None);
    assert_eq!(ctx.score(), 0);
}

#[test]
fn revouch_after_revoke_reuses_mentor_slot() {
    let mut ctx = Ctx::setup();
    ctx.vouching.set_mentor(ADMIN, MENTOR, true).unwrap();
    ctx.vouch(MENTOR).unwrap();
    ctx.revoke(MENTOR).unwrap();
    ctx.vouch(MENTOR).unwrap();
    let vouches = ctx.vouching.get_vouches(LEARNER, ctx.now);
    assert_eq!(vouches.len(), 1);
    assert!(vouches[0].active);
    assert_eq!(ctx.score(), 10);
}

#[test]
fn expire_missing_and_uninitialized_paths() {
    let mut ctx = Ctx::setup();
    assert_eq!(ctx.expire(MENTOR), Err(VouchingError::VouchNotFound));
    let mut fresh = VouchingContract::new();
    assert_eq!(fresh.get_admin(), Err(VouchingError::NotInitialized));
    assert_eq!(fresh.upgrade(), Err(VouchingError::NotInitialized));
    assert_eq!(fresh.set_mentor(ADMIN, MENTOR, true), Err(VouchingError::NotInitialized));
    fresh.initialize(ADMIN, REPUTATION, 3).unwrap();
    assert_eq!(fresh.initialize(ADMIN, REPUTATION, 3), Err(VouchingError::AlreadyInitialized));
}

#[test]
fn aggregate_overflow_is_refused() {
    let mut c = VouchingContract::new();
    c.initialize(ADMIN, REPUTATION, u32::MAX).unwrap();
    c.set_mentor(ADMIN, MENTOR, true).unwrap();
    c.set_mentor(ADMIN, 20, true).unwrap();
    assert_eq!(c.vouch(MENTOR, LEARNER, 0, 0), Ok(u32::MAX));
    assert_eq!(c.vouch(20, LEARNER, 0, 0), Err(VouchingError::Overflow));
}

#[test]
fn vouching_safe_math() {
    assert_eq!(add_u32(1, 2), Ok(3));
    assert_eq!(add_u32(u32::MAX, 1), Err(VouchingError::Overflow));
    assert_eq!(sub_u32(3, 1), Ok(2));
    assert_eq!(sub_u32(1, 3), Err(VouchingError::Underflow));
}

#[test]
fn replaying_stored_vouches_rebuilds_the_aggregate() {
    let mut c = VouchingContract::new();
    let active = VouchRecord { mentor: MENTOR, learner: LEARNER, ts: 10, boost_amount: 5, active: true };
    let ended = VouchRecord { mentor: 9, learner: LEARNER, ts: 11, boost_amount: 5, active: false };
    assert!(c.restore_vouch(active));
    assert!(c.restore_vouch(ended));
    assert!(!c.restore_vouch(active));
    assert_eq!(c.learner_total_boost.get(&LEARNER), Some(&5));
    assert_eq!(c.learner_mentors.get(&LEARNER), Some(&vec![MENTOR, 9]));
}
