use vstd::prelude::*;
use crate::Address;

verus! {

/// Protocol-wide knobs read from the parameters contract (or defaulted).
#[derive(Clone, Copy, Debug, PartialEq, Eq, Structural)]
pub struct ProtocolParameters {
    pub min_guarantee_percent: i128,
    pub min_reputation_threshold: u32,
    pub full_repayment_reward: u32,
    pub default_penalty: u32,
    pub large_loan_threshold: i128,
    pub large_loan_default_penalty: u32,
    pub base_interest_bps: u32,
    pub grace_period_seconds: u64,
    /// Fee on an installment paid after its due date, in basis points of
    /// the installment's amount.
    pub late_fee_bps: u32,
}

/// Lifecycle state of a loan.
#[derive(Clone, Copy, Debug, PartialEq, Eq, Structural)]
pub enum LoanStatus {
    Pending,
    Active,
    Paid,
    Defaulted,
    Cancelled,
}

/// Loan classification.
#[derive(Clone, Copy, Debug, PartialEq, Eq, Structural)]
pub enum LoanType {
    Standard,
    LearnerInstallment,
}

/// One slot of a repayment schedule.
#[derive(Clone, Copy, Debug, PartialEq, Eq, Structural)]
pub struct RepaymentInstallment {
    /// Unix timestamp at which the slot falls due.
    pub due_date: u64,
    /// Amount due for this slot.
    pub amount: i128,
    /// Whether the slot has been paid.
    pub paid: bool,
    /// Unix timestamp of payment (0 = unpaid).
    pub paid_at: u64,
}

/// A loan record.
#[derive(Clone, Debug, PartialEq, Eq)]
pub struct Loan {
    pub loan_id: u64,
    pub borrower: Address,
    pub vendor: Address,
    pub total_amount: i128,
    pub guarantee_amount: i128,
    pub interest_rate_bps: u32,
    pub interest_amount: i128,
    pub service_fee_amount: i128,
    pub principal_outstanding: i128,
    pub interest_outstanding: i128,
    pub service_fee_outstanding: i128,
    pub remaining_balance: i128,
    pub repayment_schedule: Vec<RepaymentInstallment>,
    pub status: LoanStatus,
    pub loan_type: LoanType,
    /// Unix timestamp of creation.
    pub created_at: u64,
    /// Unix timestamp of funding (0 = not funded yet).
    pub funded_at: u64,
    /// Accumulated unpaid late fees.
    pub late_fees_outstanding: i128,
    /// Last late-fee accrual cursor (0 = never accrued).
    pub late_fee_accrual_timestamp: u64,
}

/// Minimum guarantee, in percent of the loan amount.
pub const MIN_GUARANTEE_PERCENT: i128 = 20;
/// Minimum reputation score required to borrow.
pub const MIN_REPUTATION_THRESHOLD: u32 = 50;
/// Flat service fee, in basis points of the loan amount.
pub const SERVICE_FEE_BPS: i128 = 100;
/// Basis-point denominator.
pub const BPS_DENOMINATOR: i128 = 10_000;
/// Late fee per complete overdue day, in basis points of the balance.
pub const LATE_FEE_BPS_PER_DAY: i128 = 50;
/// Seconds in a day.
pub const SECONDS_PER_DAY: u64 = 86_400;
/// Default fee on a late installment payment, in basis points (5%).
pub const DEFAULT_LATE_FEE_BPS: u32 = 500;

/// The parameters used when no parameters contract is configured.
pub open spec fn spec_default_protocol_parameters() -> ProtocolParameters {
    ProtocolParameters {
        min_guarantee_percent: MIN_GUARANTEE_PERCENT,
        min_reputation_threshold: MIN_REPUTATION_THRESHOLD,
        full_repayment_reward: 10,
        default_penalty: 20,
        large_loan_threshold: 5_000,
        large_loan_default_penalty: 30,
        base_interest_bps: 0,
        grace_period_seconds: 0,
        late_fee_bps: DEFAULT_LATE_FEE_BPS,
    }
}

/// The parameters used when no parameters contract is configured.
pub fn default_protocol_parameters() -> (p: ProtocolParameters)
    ensures
        p == spec_default_protocol_parameters(),
{
    ProtocolParameters {
        min_guarantee_percent: MIN_GUARANTEE_PERCENT,
        min_reputation_threshold: MIN_REPUTATION_THRESHOLD,
        full_repayment_reward: 10,
        default_penalty: 20,
        large_loan_threshold: 5_000,
        large_loan_default_penalty: 30,
        base_interest_bps: 0,
        grace_period_seconds: 0,
        late_fee_bps: DEFAULT_LATE_FEE_BPS,
    }
}

/// The outstanding buckets of a loan add up to its remaining balance and
/// none of them is negative.
pub open spec fn loan_balanced(l: Loan) -> bool {
    &&& l.principal_outstanding >= 0
    &&& l.interest_outstanding >= 0
    &&& l.service_fee_outstanding >= 0
    &&& l.late_fees_outstanding >= 0
    &&& l.remaining_balance == l.principal_outstanding + l.interest_outstanding
        + l.service_fee_outstanding + l.late_fees_outstanding
}

/// How a repayment is split over the outstanding buckets.
#[derive(Clone, Copy, Debug, PartialEq, Eq, Structural)]
pub struct RepaymentAllocation {
    pub late_fee_paid: i128,
    pub interest_paid: i128,
    pub service_fee_paid: i128,
    pub principal_paid: i128,
}

/// Token movements owed when a loan is funded.
#[derive(Clone, Copy, Debug, PartialEq, Eq, Structural)]
pub struct LoanFunding {
    pub loan_id: u64,
    /// Guarantee pulled from the borrower into the credit line (0 when the
    /// guarantee was already collected at request time).
    pub guarantee_pulled: i128,
    /// Amount the liquidity pool pays the vendor (0 = no pool call).
    pub pool_contribution: i128,
}

/// Outcome of a successful repayment.
#[derive(Clone, Copy, Debug, PartialEq, Eq, Structural)]
pub struct RepaymentReceipt {
    /// Late fee accrued just before the payment was applied.
    pub accrued_late_fee: i128,
    /// Fee for paying an installment after its due date; charged on top of
    /// the payment and passed to the pool, outside the loan's balance.
    pub installment_late_fee: i128,
    /// What the borrower pays in all: the payment plus the installment fee.
    pub amount_charged: i128,
    pub allocation: RepaymentAllocation,
    pub new_balance: i128,
    pub fully_repaid: bool,
    /// Guarantee returned to the borrower (0 unless fully repaid).
    pub guarantee_refund: i128,
    /// Reputation increase requested from the reputation contract, if any.
    pub reputation_increase: Option<u32>,
}

/// Outcome of a successful default.
#[derive(Clone, Copy, Debug, PartialEq, Eq, Structural)]
pub struct DefaultReceipt {
    pub borrower: Address,
    /// Guarantee forwarded to the liquidity pool.
    pub guarantee_forfeited: i128,
    /// Unrecovered principal the pool absorbs (0 = no absorb call).
    pub principal_shortfall: i128,
    /// Reputation penalty requested from the reputation contract, if any.
    pub reputation_penalty: Option<u32>,
}

/// Payload of the grace-period warning.
#[derive(Clone, Copy, Debug, PartialEq, Eq, Structural)]
pub struct GraceWarning {
    pub borrower: Address,
    pub loan_id: u64,
    pub remaining_balance: i128,
    pub grace_ends_at: u64,
}

} // verus!
