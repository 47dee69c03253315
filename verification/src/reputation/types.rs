use vstd::prelude::*;

verus! {

/// Lowest possible score.
pub const MIN_SCORE: u32 = 0;

/// Highest possible score.
pub const MAX_SCORE: u32 = 100;

/// The protocol parameters as this contract reads them from governance.
#[derive(Clone, Copy, Debug, PartialEq, Eq, Structural)]
pub struct ProtocolParameters {
    pub min_guarantee_percent: i128,
    pub min_reputation_threshold: u32,
    pub full_repayment_reward: u32,
    pub default_penalty: u32,
    pub large_loan_threshold: i128,
    pub large_loan_default_penalty: u32,
    pub base_interest_bps: u32,
    pub grace_period_seconds: u64,
    pub upgrade_delay_seconds: u64,
}

} // verus!
