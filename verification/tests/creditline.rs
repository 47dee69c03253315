use stepfi::creditline::errors::CreditLineError;
use stepfi::creditline::repayment::{accrue_late_fees_internal, apply_waterfall};
use stepfi::creditline::rules::{calculate_bps_amount, interest_rate_bps, loan_charges, reputation_increase, validate_guarantee};
use stepfi::creditline::safe_math::{add_i128, add_u64, div_i128, div_u64, mul_i128, mul_u64, sub_i128, sub_u64};
use stepfi::creditline::storage::{loan_shard, CreditLineContract};
use stepfi::creditline::types::{
    default_protocol_parameters, LoanFunding, LoanStatus, LoanType, ProtocolParameters,
    RepaymentAllocation, RepaymentInstallment,
};

const ADMIN: u64 = 1;
const REPUTATION: u64 = 2;
const REGISTRY: u64 = 3;
const POOL: u64 = 4;
const TOKEN: u64 = 5;
const USER: u64 = 10;
const VENDOR: u64 = 20;
const DAY: u64 = 86_400;

fn setup() -> CreditLineContract {
    let mut c = CreditLineContract::new();
    c.initialize(ADMIN, REPUTATION, REGISTRY, POOL, TOKEN).unwrap();
    c
}

fn schedule(due: u64, amount: i128) -> Vec<RepaymentInstallment> {
    vec![RepaymentInstallment { due_date: due, amount, paid: false, paid_at: 0 }]
}

fn open_loan(c: &mut CreditLineContract, due: u64) -> u64 {
    let params = default_protocol_parameters();
    let f = c
        .create_loan(USER, VENDOR, 1_000, 200, schedule(due, 1_090), LoanType::Standard, 0, &params, 60, Some(true), 10_000)
        .unwrap();
    f.loan_id
}

#[test]
fn create_loan_prices_and_funds() {
    let mut c = setup();
    let params = default_protocol_parameters();
    let f = c
        .create_loan(USER, VENDOR, 1_000, 200, schedule(1_000, 1_090), LoanType::Standard, 0, &params, 60, Some(true), 10_000)
        .unwrap();
    assert_eq!(f, LoanFunding { loan_id: 1, guarantee_pulled: 200, pool_contribution: 800 });
    let loan = c.get_loan(1).unwrap();
    assert_eq!(loan.interest_rate_bps, 800);
    assert_eq!(loan.interest_amount, 80);
    assert_eq!(loan.service_fee_amount, 10);
    assert_eq!(loan.remaining_balance, 1_090);
    assert_eq!(loan.status, LoanStatus::Active);
    assert_eq!(c.get_user_active_debt(USER), 1_090);
    assert_eq!(c.get_user_loan_count(USER), 1);
}

#[test]
fn create_loan_refusals() {
    let mut c = setup();
    let params = default_protocol_parameters();
    let mut go = |total: i128, guarantee: i128, score: u32, active: Option<bool>, pool: i128| {
        c.create_loan(USER, VENDOR, total, guarantee, schedule(1_000, 1), LoanType::Standard, 0, &params, score, active, pool)
    };
    assert_eq!(go(1_000, 100, 60, Some(true), 10_000).err(), Some(CreditLineError::InsufficientGuarantee));
    assert_eq!(go(0, 100, 60, Some(true), 10_000).err(), Some(CreditLineError::InvalidAmount));
    assert_eq!(go(1_000, 200, 60, Some(false), 10_000).err(), Some(CreditLineError::VendorNotActive));
    assert_eq!(go(1_000, 200, 60, None, 10_000).err(), Some(CreditLineError::VendorValidationFailed));
    assert_eq!(go(1_000, 200, 40, Some(true), 10_000).err(), Some(CreditLineError::InsufficientReputation));
    assert_eq!(go(1_000, 200, 60, Some(true), 799).err(), Some(CreditLineError::InsufficientLiquidity));
    assert_eq!(go(3_000, 1_000, 60, Some(true), 10_000).err(), Some(CreditLineError::ExposureLimitExceeded));
}

#[test]
fn repayment_waterfall_and_full_repayment() {
    let mut c = setup();
    let id = open_loan(&mut c, 1_000);

    let r = c.repay_loan(USER, id, 100, 10).unwrap();
    assert_eq!(
        r.allocation,
        RepaymentAllocation { late_fee_paid: 0, interest_paid: 80, service_fee_paid: 10, principal_paid: 10 }
    );
    assert_eq!(r.new_balance, 990);
    assert!(!r.fully_repaid);
    assert_eq!(c.get_user_active_debt(USER), 990);

    let r = c.repay_loan(USER, id, 990, 20).unwrap();
    assert!(r.fully_repaid);
    assert_eq!(r.guarantee_refund, 200);
    assert_eq!(r.reputation_increase, Some(15));
    assert_eq!(c.get_loan(id).unwrap().status, LoanStatus::Paid);
    assert_eq!(c.get_user_active_debt(USER), 0);
}

#[test]
fn repayment_refusals() {
    let mut c = setup();
    let id = open_loan(&mut c, 1_000);
    assert_eq!(c.repay_loan(99, id, 10, 0).err(), Some(CreditLineError::UnauthorizedRepayer));
    assert_eq!(c.repay_loan(USER, id, 0, 0).err(), Some(CreditLineError::InvalidRepaymentAmount));
    assert_eq!(c.repay_loan(USER, id, 1_091, 0).err(), Some(CreditLineError::InvalidRepaymentAmount));
    assert_eq!(c.repay_loan(USER, 42, 10, 0).err(), Some(CreditLineError::LoanNotFound));
    assert_eq!(c.repay_installment(USER, id, 1, 10, 0, &default_protocol_parameters()).err(), Some(CreditLineError::InvalidInstallmentIndex));
}

#[test]
fn late_fees_accrue_per_whole_day_and_are_paid_first() {
    let mut c = setup();
    let id = open_loan(&mut c, 1_000);
    let now = 1_000 + 2 * DAY;
    let r = c.repay_loan(USER, id, 15, now).unwrap();
    assert_eq!(r.accrued_late_fee, 10);
    assert_eq!(r.allocation.late_fee_paid, 10);
    assert_eq!(r.allocation.interest_paid, 5);
    assert_eq!(r.new_balance, 1_090 + 10 - 15);
}

#[test]
fn installment_repayment_marks_slot_paid() {
    let mut c = setup();
    let id = open_loan(&mut c, 1_000);
    let r = c.repay_installment(USER, id, 0, 1_090, 500, &default_protocol_parameters()).unwrap();
    assert!(r.fully_repaid);
    let loan = c.get_loan(id).unwrap();
    assert!(loan.repayment_schedule[0].paid);
    assert_eq!(loan.repayment_schedule[0].paid_at, 500);
    assert_eq!(c.repay_installment(USER, id, 0, 1, 600, &default_protocol_parameters()).err(), Some(CreditLineError::LoanNotActive));
}

#[test]
fn default_only_after_grace() {
    let mut c = setup();
    let id = open_loan(&mut c, 1_000);
    let params = ProtocolParameters { grace_period_seconds: DAY, ..default_protocol_parameters() };
    assert_eq!(c.mark_defaulted(id, 1_000, &params).err(), Some(CreditLineError::LoanNotOverdue));
    assert_eq!(c.mark_defaulted(id, 1_000 + DAY, &params).err(), Some(CreditLineError::LoanInGracePeriod));
    let w = c.warn_grace_period(id, 1_000 + DAY, &params).unwrap();
    assert_eq!(w.grace_ends_at, 1_000 + DAY);
    let d = c.mark_defaulted(id, 1_000 + DAY + 1, &params).unwrap();
    assert_eq!(d.borrower, USER);
    assert_eq!(d.guarantee_forfeited, 200);
    assert_eq!(d.principal_shortfall, 800);
    assert_eq!(d.reputation_penalty, Some(20));
    assert_eq!(c.get_loan(id).unwrap().status, LoanStatus::Defaulted);
}

#[test]
fn pending_loan_flow() {
    let mut c = setup();
    let params = default_protocol_parameters();
    let f = c
        .request_loan(USER, VENDOR, 1_000, 200, schedule(1_000, 1_090), LoanType::LearnerInstallment, 0, &params, 60, Some(true))
        .unwrap();
    assert_eq!(f.guarantee_pulled, 200);
    assert_eq!(f.pool_contribution, 0);
    assert_eq!(c.get_loan(f.loan_id).unwrap().status, LoanStatus::Pending);
    assert_eq!(c.get_user_active_debt(USER), 0);
    assert_eq!(c.cancel_loan(USER, f.loan_id, 199).err(), Some(CreditLineError::InsufficientRefundBalance));
    let a = c.approve_loan(f.loan_id, 5, &params, 60, Some(true), 10_000).unwrap();
    assert_eq!(a.pool_contribution, 800);
    assert_eq!(c.get_loan(f.loan_id).unwrap().funded_at, 5);
    assert_eq!(c.get_user_active_debt(USER), 1_090);
    assert_eq!(c.cancel_loan(USER, f.loan_id, 1_000).err(), Some(CreditLineError::LoanNotCancellable));
}

#[test]
fn cancel_pending_loan_refunds_guarantee() {
    let mut c = setup();
    let params = default_protocol_parameters();
    let f = c
        .request_loan(USER, VENDOR, 1_000, 200, schedule(1_000, 1_090), LoanType::Standard, 0, &params, 60, Some(true))
        .unwrap();
    assert_eq!(c.cancel_loan(USER, f.loan_id, 200), Ok((USER, 200)));
    assert_eq!(c.get_loan(f.loan_id).unwrap().status, LoanStatus::Cancelled);
}

#[test]
fn pause_blocks_new_loans() {
    let mut c = setup();
    c.pause(ADMIN).unwrap();
    assert!(c.is_paused());
    let params = default_protocol_parameters();
    assert_eq!(
        c.create_loan(USER, VENDOR, 1_000, 200, schedule(1_000, 1), LoanType::Standard, 0, &params, 60, Some(true), 10_000).err(),
        Some(CreditLineError::ContractPaused)
    );
    assert_eq!(c.pause(99), Err(CreditLineError::NotAdmin));
    c.unpause(ADMIN).unwrap();
    assert!(!c.is_paused());
}

#[test]
fn user_loans_paginate_in_creation_order() {
    let mut c = setup();
    let params = default_protocol_parameters();
    for _ in 0..3 {
        c.create_loan(USER, VENDOR, 100, 20, schedule(1_000, 109), LoanType::Standard, 0, &params, 60, Some(true), 10_000)
            .unwrap();
    }
    assert_eq!(c.get_user_loan_ids_paginated(USER, 1, 5), vec![2, 3]);
    assert_eq!(c.get_user_loan_ids_paginated(USER, 0, 1), vec![1]);
}

#[test]
fn admin_and_upgrade() {
    let mut c = CreditLineContract::new();
    assert_eq!(c.get_admin(), Err(CreditLineError::NotInitialized));
    c.initialize(ADMIN, REPUTATION, REGISTRY, POOL, TOKEN).unwrap();
    assert_eq!(c.initialize(ADMIN, REPUTATION, REGISTRY, POOL, TOKEN), Err(CreditLineError::AlreadyInitialized));
    assert_eq!(c.get_version(), 1);
    assert_eq!(c.upgrade(), Ok((1, 2)));
    assert_eq!(c.get_version(), 2);
}

#[test]
fn pricing_formulas() {
    let p = default_protocol_parameters();
    assert_eq!(interest_rate_bps(&p, 95), 400);
    assert_eq!(interest_rate_bps(&p, 80), 600);
    assert_eq!(interest_rate_bps(&p, 60), 800);
    assert_eq!(interest_rate_bps(&p, 10), 1_000);
    let q = ProtocolParameters { base_interest_bps: 900, ..p };
    assert_eq!(interest_rate_bps(&q, 95), 300);
    assert_eq!(interest_rate_bps(&q, 60), 700);
    assert_eq!(CreditLineContract::credit_limit(59), 1_000);
    assert_eq!(CreditLineContract::credit_limit(60), 2_500);
    assert_eq!(CreditLineContract::credit_limit(75), 5_000);
    assert_eq!(CreditLineContract::credit_limit(90), 10_000);
    assert_eq!(calculate_bps_amount(1_000, 800), Ok(80));
    assert_eq!(loan_charges(1_000, 800), Ok((80, 10, 1_090)));
    assert_eq!(reputation_increase(5, 10), 15);
    assert_eq!(reputation_increase(10, 10), 10);
    assert_eq!(validate_guarantee(1_000, 199, &p), Err(CreditLineError::InsufficientGuarantee));
    assert_eq!(validate_guarantee(1_000, 1_001, &p), Err(CreditLineError::InvalidAmount));
    assert_eq!(apply_waterfall(5, 10, 3, 100, 16), RepaymentAllocation { late_fee_paid: 5, interest_paid: 10, service_fee_paid: 1, principal_paid: 0 });
    assert!(loan_shard(7) < 32);
}

#[test]
fn late_fee_formula() {
    let mut c = setup();
    let id = open_loan(&mut c, 1_000);
    let loan = c.get_loan(id).unwrap().clone();
    assert_eq!(accrue_late_fees_internal(&loan, 1_000), Ok((0, 0)));
    assert_eq!(accrue_late_fees_internal(&loan, 1_000 + DAY - 1), Ok((0, 0)));
    assert_eq!(accrue_late_fees_internal(&loan, 1_000 + 3 * DAY + 7), Ok((16, 1_000 + 3 * DAY)));
}

#[test]
fn creditline_safe_math() {
    assert_eq!(add_i128(1, 2), Ok(3));
    assert_eq!(add_i128(i128::MAX, 1), Err(CreditLineError::Overflow));
    assert_eq!(sub_i128(i128::MIN, 1), Err(CreditLineError::Underflow));
    assert_eq!(mul_i128(3, 4), Ok(12));
    assert_eq!(div_i128(9, 2), Ok(4));
    assert_eq!(add_u64(u64::MAX, 1), Err(CreditLineError::Overflow));
    assert_eq!(sub_u64(1, 2), Err(CreditLineError::Underflow));
    assert_eq!(mul_u64(3, 4), Ok(12));
    assert_eq!(div_u64(9, 0), Err(CreditLineError::Overflow));
}

#[test]
fn debt_tracks_active_balances() {
    let mut c = setup();
    let params = default_protocol_parameters();
    let a = open_loan(&mut c, 1_000);
    let b = c
        .request_loan(USER, VENDOR, 500, 100, schedule(2_000, 545), LoanType::Standard, 0, &params, 60, Some(true))
        .unwrap()
        .loan_id;
    assert_eq!(c.get_user_active_debt(USER), 1_090);
    c.approve_loan(b, 1, &params, 60, Some(true), 10_000).unwrap();
    let balance_b = c.get_loan(b).unwrap().remaining_balance;
    assert_eq!(c.get_user_active_debt(USER), 1_090 + balance_b);
    c.repay_loan(USER, a, 90, 2).unwrap();
    assert_eq!(c.get_user_active_debt(USER), 1_000 + balance_b);
    let fee = c.apply_late_fees(b, 2_000 + DAY).unwrap();
    assert!(fee > 0);
    let balance_b = c.get_loan(b).unwrap().remaining_balance;
    assert_eq!(c.get_user_active_debt(USER), 1_000 + balance_b);
    c.mark_defaulted(b, 2_000 + DAY + 1, &params).unwrap();
    assert_eq!(c.get_user_active_debt(USER), 1_000);
}

fn open_loan_with(c: &mut CreditLineContract, slots: Vec<RepaymentInstallment>) -> u64 {
    let params = default_protocol_parameters();
    c.create_loan(USER, VENDOR, 1_000, 200, slots, LoanType::Standard, 0, &params, 60, Some(true), 10_000)
        .unwrap()
        .loan_id
}

fn two_slots(first_due: u64, second_due: u64) -> Vec<RepaymentInstallment> {
    vec![
        RepaymentInstallment { due_date: first_due, amount: 545, paid: false, paid_at: 0 },
        RepaymentInstallment { due_date: second_due, amount: 545, paid: false, paid_at: 0 },
    ]
}

#[test]
fn default_late_fee_is_five_percent() {
    assert_eq!(default_protocol_parameters().late_fee_bps, 500);
}

#[test]
fn installment_paid_on_time_costs_no_fee() {
    let mut c = setup();
    let id = open_loan_with(&mut c, two_slots(1_000, 2_000));
    let r = c.repay_installment(USER, id, 0, 545, 1_000, &default_protocol_parameters()).unwrap();
    assert_eq!(r.installment_late_fee, 0);
    assert_eq!(r.amount_charged, 545);
    assert_eq!(r.new_balance, 545);
}

#[test]
fn installment_paid_late_costs_a_fee_on_top() {
    let mut c = setup();
    let id = open_loan_with(&mut c, two_slots(1_000, 5 * DAY));
    let r = c.repay_installment(USER, id, 0, 545, 1_001, &default_protocol_parameters()).unwrap();
    assert_eq!(r.installment_late_fee, 27);
    assert_eq!(r.amount_charged, 572);
    assert_eq!(r.accrued_late_fee, 0);
    assert_eq!(r.new_balance, 545);
    assert_eq!(c.get_loan(id).unwrap().remaining_balance, 545);
    assert_eq!(c.get_user_active_debt(USER), 545);
}

#[test]
fn installment_fee_follows_the_governed_rate() {
    let mut c = setup();
    let id = open_loan_with(&mut c, two_slots(1_000, 5 * DAY));
    let params = ProtocolParameters { late_fee_bps: 1_000, ..default_protocol_parameters() };
    let r = c.repay_installment(USER, id, 0, 545, 1_001, &params).unwrap();
    assert_eq!(r.installment_late_fee, 54);
    assert_eq!(r.amount_charged, 599);
}

#[test]
fn installment_without_due_date_is_never_late() {
    let mut c = setup();
    let id = open_loan_with(&mut c, two_slots(0, 0));
    let r = c.repay_installment(USER, id, 1, 545, 9 * DAY, &default_protocol_parameters()).unwrap();
    assert_eq!(r.installment_late_fee, 0);
    assert_eq!(r.amount_charged, 545);
}

#[test]
fn paid_installments_do_not_start_the_late_fee_clock() {
    let mut c = setup();
    let id = open_loan_with(&mut c, two_slots(1_000, 1_000 + 2 * DAY));
    c.repay_installment(USER, id, 0, 545, 900, &default_protocol_parameters()).unwrap();
    let loan = c.get_loan(id).unwrap().clone();
    assert_eq!(accrue_late_fees_internal(&loan, 1_000 + 2 * DAY), Ok((0, 0)));
    assert_eq!(accrue_late_fees_internal(&loan, 1_000 + 3 * DAY), Ok((2, 1_000 + 3 * DAY)));
}

#[test]
fn parameters_fall_back_to_defaults() {
    let mut c = setup();
    let custom = ProtocolParameters { late_fee_bps: 900, ..default_protocol_parameters() };
    assert_eq!(c.get_protocol_parameters(Some(custom)), default_protocol_parameters());
    c.set_parameters_contract(ADMIN, 6).unwrap();
    assert_eq!(c.get_protocol_parameters(Some(custom)), custom);
    assert_eq!(c.get_protocol_parameters(None), default_protocol_parameters());
}

#[test]
fn user_loans_are_listed_in_creation_order() {
    let mut c = setup();
    let a = open_loan(&mut c, 1_000);
    let b = open_loan(&mut c, 2_000);
    let all: Vec<u64> = c.get_user_loans(USER, 0, 10).unwrap().iter().map(|l| l.loan_id).collect();
    assert_eq!(all, vec![a, b]);
    let page: Vec<u64> = c.get_user_loans(USER, 1, 1).unwrap().iter().map(|l| l.loan_id).collect();
    assert_eq!(page, vec![b]);
    assert!(c.get_user_loans(USER, 2, 5).unwrap().is_empty());
    assert!(c.get_user_loans(USER, 0, 0).unwrap().is_empty());
}

#[test]
fn replaying_stored_loans_rebuilds_the_ledger() {
    let mut c = setup();
    let a = open_loan(&mut c, 1_000);
    let b = open_loan(&mut c, 2_000);
    c.repay_loan(USER, a, 1_090, 10).unwrap();
    let mut r = CreditLineContract::new();
    assert!(r.restore_loan(c.get_loan(a).unwrap().clone()));
    assert!(r.restore_loan(c.get_loan(b).unwrap().clone()));
    assert!(r.restore_loan_counter(c.get_loan_counter()));
    assert_eq!(r.get_user_active_debt(USER), 1_090);
    assert_eq!(r.get_user_active_debt(USER), c.get_user_active_debt(USER));
    assert_eq!(r.get_user_loan_count(USER), 2);
    assert!(!r.restore_loan(c.get_loan(a).unwrap().clone()));
    assert!(!r.restore_loan_counter(0));
}

#[test]
fn build_loan_advances_the_counter_only_on_success() {
    let mut c = setup();
    let params = default_protocol_parameters();
    let loan = c
        .build_loan(USER, VENDOR, 1_000, 200, schedule(1_000, 1_090), 60, LoanStatus::Pending, LoanType::Standard, 7, &params, Some(true))
        .unwrap();
    assert_eq!(loan.loan_id, 1);
    assert_eq!(loan.remaining_balance, 1_090);
    assert_eq!(c.get_loan_counter(), 1);
    assert_eq!(
        c.build_loan(USER, VENDOR, 10_000, 2_000, schedule(1_000, 10_900), 60, LoanStatus::Pending, LoanType::Standard, 7, &params, Some(true))
            .err(),
        Some(CreditLineError::ExposureLimitExceeded)
    );
    assert_eq!(c.get_loan_counter(), 1);
}

#[test]
fn rewritten_loans_keep_their_place_in_the_list() {
    let mut c = setup();
    let a = open_loan(&mut c, 1_000);
    let b = open_loan(&mut c, 2_000);
    c.repay_loan(USER, a, 100, 10).unwrap();
    let all: Vec<u64> = c.get_user_loans(USER, 0, 10).unwrap().iter().map(|l| l.loan_id).collect();
    assert_eq!(all, vec![a, b]);
    assert_eq!(c.get_user_loans(USER, 0, 1).unwrap()[0].remaining_balance, 990);
}
