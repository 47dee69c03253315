use stepfi::parameters::errors::ParametersError;
use stepfi::parameters::governance::ExecutionOutcome;
use stepfi::parameters::storage::ParametersContract;
use stepfi::parameters::types::{
    default_parameters, MultisigConfig, ProposalAction, ProtocolParameters,
};
use stepfi::parameters::safe_math::{add_i128, div_i128, mul_i128, sub_i128};

const SEVEN_DAYS: u64 = 604_800;
const ADMIN: u64 = 100;
const S1: u64 = 1;
const S2: u64 = 2;
const S3: u64 = 3;

fn setup() -> ParametersContract {
    ParametersContract::new()
}

fn setup_multisig() -> ParametersContract {
    let mut c = setup();
    c.initialize_defaults(ADMIN).unwrap();
    c.configure_multisig(vec![S1, S2, S3], 2).unwrap();
    c.confirm_multisig().unwrap();
    c
}

fn signer_update_action(signers: Vec<u64>, threshold: u32) -> ProposalAction {
    ProposalAction::UpdateSigners(MultisigConfig { signers, threshold })
}

fn execute_ok(c: &mut ParametersContract, id: u64, now: u64) -> ExecutionOutcome {
    c.execute(id, now).unwrap()
}

#[test]
fn test_initialize_defaults() {
    let mut c = setup();
    c.initialize_defaults(ADMIN).unwrap();

    assert_eq!(c.get_admin(), Ok(ADMIN));
    assert_eq!(c.get_parameters(), Ok(default_parameters()));
}

#[test]
fn test_get_admin_before_initialize_returns_typed_error() {
    let c = setup();

    assert_eq!(c.get_admin(), Err(ParametersError::NotInitialized));
}

#[test]
fn test_get_parameters_before_initialize_returns_typed_error() {
    let c = setup();

    assert_eq!(c.get_parameters(), Err(ParametersError::NotInitialized));
}

#[test]
fn test_invalid_parameters_rejected() {
    let mut c = setup();
    let params = ProtocolParameters { min_guarantee_percent: 0, ..default_parameters() };

    assert_eq!(c.initialize(ADMIN, params), Err(ParametersError::InvalidParameters));
    assert_eq!(c.get_admin(), Err(ParametersError::NotInitialized));
}

#[test]
fn test_configure_multisig_stores_committee() {
    let c = setup_multisig();

    let config = c.get_multisig().unwrap();
    assert_eq!(config.threshold, 2);
    assert_eq!(config.signers.len(), 3);
    assert!(config.signers.contains(&S1));
    assert!(config.signers.contains(&S2));
    assert!(config.signers.contains(&S3));
}

#[test]
fn test_configure_multisig_two_step_propose_confirm_emits_prominent_events() {
    let mut c = setup();
    c.initialize_defaults(ADMIN).unwrap();

    c.configure_multisig(vec![S1, S2, S3], 2).unwrap();
    // The first step alone does not activate the committee.
    assert!(c.pending_multisig.is_some());
    assert_eq!(c.get_multisig().err(), Some(ParametersError::MultisigNotConfigured));

    c.confirm_multisig().unwrap();
    assert!(c.pending_multisig.is_none());
    let config = c.get_multisig().unwrap();
    assert_eq!(config.threshold, 2);
    assert_eq!(config.signers.len(), 3);

    let id = c.propose(S1, ProposalAction::UpdateParameters(default_parameters()), 0).unwrap();
    c.approve(S2, id, 0).unwrap();
    execute_ok(&mut c, id, 0);
    assert!(c.get_proposal(id).unwrap().executed);
}

#[test]
fn test_confirm_multisig_without_propose_fails() {
    let mut c = setup();
    c.initialize_defaults(ADMIN).unwrap();

    assert_eq!(c.confirm_multisig(), Err(ParametersError::MultisigNotConfigured));
}

#[test]
fn test_configure_multisig_cannot_repropose_without_confirm() {
    let mut c = setup();
    c.initialize_defaults(ADMIN).unwrap();

    c.configure_multisig(vec![S1, S2], 2).unwrap();
    assert_eq!(
        c.configure_multisig(vec![S1, S2], 2),
        Err(ParametersError::MultisigAlreadyConfigured)
    );
}

#[test]
fn test_confirm_multisig_cannot_be_called_twice() {
    let mut c = setup();
    c.initialize_defaults(ADMIN).unwrap();

    c.configure_multisig(vec![S1, S2], 2).unwrap();
    c.confirm_multisig().unwrap();
    assert_eq!(c.confirm_multisig(), Err(ParametersError::MultisigAlreadyConfigured));
}

#[test]
fn test_configure_multisig_rejects_threshold_below_two() {
    let mut c = setup();
    c.initialize_defaults(ADMIN).unwrap();

    assert_eq!(c.configure_multisig(vec![S1, S2], 1), Err(ParametersError::InvalidThreshold));
}

#[test]
fn test_configure_multisig_rejects_threshold_above_signer_count() {
    let mut c = setup();
    c.initialize_defaults(ADMIN).unwrap();

    assert_eq!(c.configure_multisig(vec![S1, S2], 3), Err(ParametersError::InvalidThreshold));
}

#[test]
fn test_configure_multisig_rejects_duplicate_signers() {
    let mut c = setup();
    c.initialize_defaults(ADMIN).unwrap();

    assert_eq!(c.configure_multisig(vec![S1, S1], 2), Err(ParametersError::DuplicateSigner));
}

#[test]
fn test_configure_multisig_only_once() {
    let mut c = setup_multisig();

    assert_eq!(
        c.configure_multisig(vec![S1, S2, S3], 2),
        Err(ParametersError::MultisigAlreadyConfigured)
    );
}

#[test]
fn test_propose_rejects_non_signer() {
    let mut c = setup_multisig();
    let intruder = 666;

    assert_eq!(
        c.propose(intruder, ProposalAction::SetAdmin(intruder), 0),
        Err(ParametersError::NotSigner)
    );
}

#[test]
fn test_update_parameters_two_of_three_workflow() {
    let mut c = setup_multisig();

    let params = ProtocolParameters {
        min_guarantee_percent: 30,
        min_reputation_threshold: 70,
        full_repayment_reward: 12,
        default_penalty: 25,
        large_loan_threshold: 7_500,
        large_loan_default_penalty: 40,
        base_interest_bps: 900,
        grace_period_seconds: 86_400,
        upgrade_delay_seconds: 86_400,
        late_fee_bps: 500,
    };

    let id = c.propose(S1, ProposalAction::UpdateParameters(params), 0).unwrap();
    // The proposer counts as the first approval; one more reaches 2-of-3.
    c.approve(S2, id, 0).unwrap();
    execute_ok(&mut c, id, 0);

    assert_eq!(c.get_parameters(), Ok(params));
    assert!(c.get_proposal(id).unwrap().executed);
}

#[test]
fn test_execute_before_threshold_met_is_rejected() {
    let mut c = setup_multisig();

    let id = c.propose(S1, ProposalAction::UpdateParameters(default_parameters()), 0).unwrap();
    assert_eq!(c.execute(id, 0).err(), Some(ParametersError::ThresholdNotMet));
}

#[test]
fn test_duplicate_signature_rejected() {
    let mut c = setup_multisig();

    let id = c.propose(S1, ProposalAction::UpdateParameters(default_parameters()), 0).unwrap();
    assert_eq!(c.approve(S1, id, 0), Err(ParametersError::DuplicateSignature));
}

#[test]
fn test_cannot_execute_twice() {
    let mut c = setup_multisig();

    let id = c.propose(S1, ProposalAction::UpdateParameters(default_parameters()), 0).unwrap();
    c.approve(S2, id, 0).unwrap();
    execute_ok(&mut c, id, 0);
    assert_eq!(c.execute(id, 0).err(), Some(ParametersError::ProposalAlreadyExecuted));
}

#[test]
fn test_proposal_expires_after_seven_days() {
    let mut c = setup_multisig();

    let id = c.propose(S1, ProposalAction::UpdateParameters(default_parameters()), 0).unwrap();
    assert_eq!(c.approve(S2, id, SEVEN_DAYS + 1), Err(ParametersError::ProposalExpired));
}

#[test]
fn test_expired_proposal_cannot_execute() {
    let mut c = setup_multisig();

    let id = c.propose(S1, ProposalAction::UpdateParameters(default_parameters()), 0).unwrap();
    c.approve(S2, id, 0).unwrap();
    assert_eq!(c.execute(id, SEVEN_DAYS + 1).err(), Some(ParametersError::ProposalExpired));
}

#[test]
fn test_set_admin_via_proposal() {
    let mut c = setup_multisig();
    let new_admin = 200;

    let id = c.propose(S1, ProposalAction::SetAdmin(new_admin), 0).unwrap();
    c.approve(S2, id, 0).unwrap();
    execute_ok(&mut c, id, 0);

    assert_eq!(c.get_admin(), Ok(new_admin));
}

#[test]
fn test_update_signers_via_proposal() {
    let mut c = setup_multisig();
    let (n1, n2) = (11, 12);

    let id = c
        .propose(S1, ProposalAction::UpdateSigners(MultisigConfig { signers: vec![n1, n2], threshold: 2 }), 0)
        .unwrap();
    // Signer-set changes need one approval more than the threshold.
    c.approve(S2, id, 0).unwrap();
    c.approve(S3, id, 0).unwrap();
    execute_ok(&mut c, id, 0);

    let config = c.get_multisig().unwrap();
    assert_eq!(config.signers.len(), 2);
    assert!(config.signers.contains(&n1));
    assert!(config.signers.contains(&n2));
    assert!(!config.signers.contains(&S1));

    let proposal = c.get_proposal(id).unwrap();
    assert!(!proposal.invalidated);
    assert_eq!(proposal.snapshot.len(), 3);
    assert!(proposal.snapshot.contains(&S1));
    assert!(proposal.snapshot.contains(&S2));
    assert!(proposal.snapshot.contains(&S3));
}

#[test]
fn test_update_signers_requires_elevated_quorum() {
    let mut c = setup_multisig();

    let id = c.propose(S1, signer_update_action(vec![11, 12], 2), 0).unwrap();
    c.approve(S2, id, 0).unwrap();
    assert_eq!(c.execute(id, 0).err(), Some(ParametersError::ThresholdNotMet));
}

#[test]
fn test_update_signers_with_elevated_quorum_executes() {
    let mut c = setup_multisig();
    let (n1, n2) = (11, 12);

    let id = c.propose(S1, signer_update_action(vec![n1, n2], 2), 0).unwrap();
    c.approve(S2, id, 0).unwrap();
    c.approve(S3, id, 0).unwrap();
    execute_ok(&mut c, id, 0);

    let config = c.get_multisig().unwrap();
    assert!(config.signers.contains(&n1));
    assert!(config.signers.contains(&n2));
    assert!(!config.signers.contains(&S1));
    assert!(!config.signers.contains(&S2));
}

#[test]
fn test_signer_change_quorum_capped_at_full_committee_for_unanimous_set() {
    let mut c = setup();
    c.initialize_defaults(ADMIN).unwrap();
    c.configure_multisig(vec![S1, S2], 2).unwrap();
    c.confirm_multisig().unwrap();

    let id = c.propose(S1, signer_update_action(vec![11, 12], 2), 0).unwrap();
    // 2-of-2: the elevated quorum is capped at the whole committee.
    assert!(c.execute(id, 0).is_err());
    c.approve(S2, id, 0).unwrap();
    execute_ok(&mut c, id, 0);
    assert_eq!(c.get_multisig().unwrap().signers.len(), 2);
}

#[test]
fn test_stale_approval_from_removed_signer_is_never_counted() {
    let mut c = setup_multisig();

    let params = ProtocolParameters { min_guarantee_percent: 30, ..default_parameters() };
    let id = c.propose(S1, ProposalAction::UpdateParameters(params), 0).unwrap();
    c.approve(S2, id, 0).unwrap();

    let change_id = c
        .propose(S2, ProposalAction::UpdateSigners(MultisigConfig { signers: vec![S1, S3], threshold: 2 }), 0)
        .unwrap();
    c.approve(S1, change_id, 0).unwrap();
    c.approve(S3, change_id, 0).unwrap();
    execute_ok(&mut c, change_id, 0);
    assert!(!c.get_multisig().unwrap().signers.contains(&S2));

    let proposal = c.get_proposal(id).unwrap();
    assert_eq!(proposal.approvals.len(), 2);
    assert!(proposal.snapshot.contains(&S2));
    assert!(c.execute(id, 0).is_err());
    assert_eq!(c.get_parameters(), Ok(default_parameters()));
}

#[test]
fn test_execute_rejects_proposal_whose_approver_was_removed() {
    let mut c = setup_multisig();

    let id = c.propose(S1, ProposalAction::UpdateParameters(default_parameters()), 0).unwrap();
    c.approve(S2, id, 0).unwrap();

    let change_id = c
        .propose(S3, ProposalAction::UpdateSigners(MultisigConfig { signers: vec![S1, S3], threshold: 2 }), 0)
        .unwrap();
    c.approve(S1, change_id, 0).unwrap();
    c.approve(S2, change_id, 0).unwrap();
    execute_ok(&mut c, change_id, 0);

    assert_eq!(c.execute(id, 0).err(), Some(ParametersError::ApproverNotEligible));
}

#[test]
fn test_newly_added_signer_cannot_approve_old_proposal() {
    let mut c = setup_multisig();
    let s4 = 4;

    let id = c.propose(S1, ProposalAction::UpdateParameters(default_parameters()), 0).unwrap();

    let change_id = c
        .propose(S2, ProposalAction::UpdateSigners(MultisigConfig { signers: vec![S3, s4], threshold: 2 }), 0)
        .unwrap();
    c.approve(S1, change_id, 0).unwrap();
    c.approve(S3, change_id, 0).unwrap();
    execute_ok(&mut c, change_id, 0);

    assert_eq!(c.approve(s4, id, 0), Err(ParametersError::ApproverNotEligible));
}

#[test]
fn test_removed_signer_cannot_approve_after_removal() {
    let mut c = setup_multisig();

    let id = c.propose(S1, ProposalAction::UpdateParameters(default_parameters()), 0).unwrap();

    let change_id = c
        .propose(S2, ProposalAction::UpdateSigners(MultisigConfig { signers: vec![S1, S3], threshold: 2 }), 0)
        .unwrap();
    c.approve(S1, change_id, 0).unwrap();
    c.approve(S3, change_id, 0).unwrap();
    execute_ok(&mut c, change_id, 0);

    assert_eq!(c.approve(S2, id, 0), Err(ParametersError::NotSigner));
}

#[test]
fn test_in_flight_signer_set_proposals_are_invalidated_on_signer_change() {
    let mut c = setup_multisig();

    let a_id = c.propose(S1, signer_update_action(vec![S1, S2], 2), 0).unwrap();

    let b_id = c.propose(S2, signer_update_action(vec![S2, S3], 2), 0).unwrap();
    c.approve(S1, b_id, 0).unwrap();
    c.approve(S3, b_id, 0).unwrap();
    let outcome = execute_ok(&mut c, b_id, 0);

    // The change voids every other in-flight signer-set proposal.
    assert_eq!(outcome.invalidated, vec![a_id]);

    assert!(c.get_proposal(a_id).unwrap().invalidated);
    assert!(c.execute(a_id, 0).is_err());

    let b = c.get_proposal(b_id).unwrap();
    assert!(b.executed);
    assert!(!b.invalidated);
    let config = c.get_multisig().unwrap();
    assert_eq!(config.signers, vec![S2, S3]);
    assert_eq!(config.threshold, 2);
}

#[test]
fn test_approve_rejects_invalidated_signer_set_proposal() {
    let mut c = setup_multisig();

    let a_id = c.propose(S1, signer_update_action(vec![S1, S2], 2), 0).unwrap();
    let b_id = c.propose(S2, signer_update_action(vec![S2, S3], 2), 0).unwrap();
    c.approve(S1, b_id, 0).unwrap();
    c.approve(S3, b_id, 0).unwrap();
    execute_ok(&mut c, b_id, 0);

    assert_eq!(c.approve(S2, a_id, 0), Err(ParametersError::ProposalInvalidated));
}

#[test]
fn test_parameter_proposals_survive_signer_change_but_stale_approvals_revalidated() {
    let mut c = setup_multisig();

    let p_id = c.propose(S1, ProposalAction::UpdateParameters(default_parameters()), 0).unwrap();

    let change_id = c
        .propose(S1, ProposalAction::UpdateSigners(MultisigConfig { signers: vec![S2, S3], threshold: 2 }), 0)
        .unwrap();
    c.approve(S2, change_id, 0).unwrap();
    c.approve(S3, change_id, 0).unwrap();
    execute_ok(&mut c, change_id, 0);

    assert!(!c.get_proposal(p_id).unwrap().invalidated);
    assert!(c.execute(p_id, 0).is_err());

    c.approve(S2, p_id, 0).unwrap();
    assert!(c.execute(p_id, 0).is_err());
    assert_eq!(c.get_parameters(), Ok(default_parameters()));
}

#[test]
fn test_upgrade_via_proposal_increments_version() {
    let mut c = setup_multisig();
    assert_eq!(c.get_version(), 1);

    let hash = [7u8; 32];
    let id = c.propose(S1, ProposalAction::Upgrade(hash), 0).unwrap();
    c.approve(S2, id, 0).unwrap();
    let outcome = execute_ok(&mut c, id, 0);

    assert_eq!(outcome.upgraded, Some((hash, 1, 2)));
    assert_eq!(c.get_version(), 2);
}

#[test]
fn test_three_of_three_with_full_committee_approval() {
    let mut c = setup();
    c.initialize_defaults(ADMIN).unwrap();
    c.configure_multisig(vec![S1, S2, S3], 3).unwrap();
    c.confirm_multisig().unwrap();

    let id = c.propose(S1, ProposalAction::UpdateParameters(default_parameters()), 0).unwrap();
    c.approve(S2, id, 0).unwrap();
    assert!(c.execute(id, 0).is_err());

    c.approve(S3, id, 0).unwrap();
    execute_ok(&mut c, id, 0);
    assert!(c.get_proposal(id).unwrap().executed);
}

// Further cases.

#[test]
fn default_parameters_values() {
    let p = default_parameters();
    assert_eq!(p.min_guarantee_percent, 20);
    assert_eq!(p.min_reputation_threshold, 50);
    assert_eq!(p.large_loan_threshold, 5_000);
    assert_eq!(p.upgrade_delay_seconds, 86_400);
    assert_eq!(p.late_fee_bps, 500);
}

#[test]
fn governance_sets_the_installment_late_fee() {
    let mut c = setup_multisig();
    let id = c.propose(S1, ProposalAction::SetLateFeeBps(750), 0).unwrap();
    c.approve(S2, id, 0).unwrap();
    execute_ok(&mut c, id, 0);
    let p = c.get_parameters().unwrap();
    assert_eq!(p.late_fee_bps, 750);
    assert_eq!(p.min_guarantee_percent, 20);
}

#[test]
fn initialize_twice_is_rejected() {
    let mut c = setup();
    c.initialize_defaults(ADMIN).unwrap();
    assert_eq!(c.initialize_defaults(7), Err(ParametersError::AlreadyInitialized));
    assert_eq!(c.get_admin(), Ok(ADMIN));
}

#[test]
fn configure_multisig_before_initialize_is_rejected() {
    let mut c = setup();
    assert_eq!(c.configure_multisig(vec![S1, S2], 2), Err(ParametersError::NotInitialized));
}

#[test]
fn propose_without_committee_is_rejected() {
    let mut c = setup();
    c.initialize_defaults(ADMIN).unwrap();
    assert_eq!(
        c.propose(S1, ProposalAction::SetAdmin(S1), 0),
        Err(ParametersError::MultisigNotConfigured)
    );
}

#[test]
fn propose_rejects_invalid_parameters_and_time_overflow() {
    let mut c = setup_multisig();
    let bad = ProtocolParameters { large_loan_threshold: 0, ..default_parameters() };
    assert_eq!(
        c.propose(S1, ProposalAction::UpdateParameters(bad), 0),
        Err(ParametersError::InvalidParameters)
    );
    assert_eq!(
        c.propose(S1, ProposalAction::SetAdmin(S1), u64::MAX),
        Err(ParametersError::Overflow)
    );
}

#[test]
fn proposal_records_expiry_and_proposer_approval() {
    let mut c = setup_multisig();
    let id = c.propose(S2, ProposalAction::SetAdmin(9), 1_000).unwrap();
    let p = c.get_proposal(id).unwrap();
    assert_eq!(p.id, 0);
    assert_eq!(p.created_at, 1_000);
    assert_eq!(p.expires_at, 1_000 + SEVEN_DAYS);
    assert_eq!(p.approvals, vec![S2]);
    assert_eq!(c.propose(S1, ProposalAction::SetAdmin(9), 0), Ok(1));
    assert_eq!(c.get_proposal(42).err(), Some(ParametersError::ProposalNotFound));
}

#[test]
fn approval_on_last_valid_second_is_accepted() {
    let mut c = setup_multisig();
    let id = c.propose(S1, ProposalAction::SetAdmin(9), 0).unwrap();
    assert_eq!(c.approve(S2, id, SEVEN_DAYS), Ok(()));
    assert!(c.execute(id, SEVEN_DAYS).is_ok());
}

#[test]
fn execute_unknown_proposal_is_rejected() {
    let mut c = setup_multisig();
    assert_eq!(c.execute(5, 0).err(), Some(ParametersError::ProposalNotFound));
}

#[test]
fn parameter_safe_math() {
    assert_eq!(add_i128(2, 3), Ok(5));
    assert_eq!(add_i128(i128::MAX, 1), Err(ParametersError::Overflow));
    assert_eq!(sub_i128(2, 3), Ok(-1));
    assert_eq!(sub_i128(i128::MIN, 1), Err(ParametersError::Underflow));
    assert_eq!(mul_i128(4, 5), Ok(20));
    assert_eq!(mul_i128(i128::MAX, 2), Err(ParametersError::Overflow));
    assert_eq!(div_i128(7, 2), Ok(3));
    assert!(div_i128(7, 0).is_err());
}

#[test]
fn executed_proposal_is_final_and_voided_ones_never_run() {
    let mut c = setup_multisig();
    let a_id = c.propose(S1, signer_update_action(vec![S1, S2], 2), 0).unwrap();
    let b_id = c.propose(S2, signer_update_action(vec![S2, S3], 2), 0).unwrap();
    c.approve(S1, b_id, 0).unwrap();
    c.approve(S3, b_id, 0).unwrap();
    execute_ok(&mut c, b_id, 0);
    assert_eq!(c.execute(b_id, 1).err(), Some(ParametersError::ProposalAlreadyExecuted));
    assert_eq!(c.execute(a_id, 1).err(), Some(ParametersError::ProposalInvalidated));
}

#[test]
fn replaying_stored_proposals_rebuilds_the_index() {
    let mut c = setup_multisig();
    let id = c.propose(S1, ProposalAction::SetLateFeeBps(600), 0).unwrap();
    let stored = c.get_proposal(id).unwrap();
    let copy = stepfi::parameters::types::Proposal {
        id: stored.id,
        action: ProposalAction::SetLateFeeBps(600),
        proposer: stored.proposer,
        approvals: stored.approvals.clone(),
        snapshot: stored.snapshot.clone(),
        created_at: stored.created_at,
        expires_at: stored.expires_at,
        executed: stored.executed,
        invalidated: stored.invalidated,
    };
    let mut r = ParametersContract::new();
    assert!(r.restore_proposal_count(c.proposal_count));
    assert!(!r.restore_proposal_count(0));
    assert!(r.restore_proposal(copy));
    assert_eq!(r.proposal_ids, vec![id]);
    assert_eq!(r.get_proposal(id).unwrap().approvals, vec![S1]);
}
