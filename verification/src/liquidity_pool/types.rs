use vstd::prelude::*;
use crate::{Address, WasmHash};

verus! {

/// Pool statistics.
#[derive(Clone, Copy, Debug, PartialEq, Eq, Structural)]
pub struct PoolStats {
    pub total_liquidity: i128,
    pub locked_liquidity: i128,
    pub available_liquidity: i128,
    pub total_shares: i128,
    /// Share price in basis points (10000 = 1.0).
    pub share_price: i128,
}

/// Liquidity providers' part of distributed interest, in basis points.
pub const LP_FEE_BPS: i128 = 8500;
/// Protocol treasury's part of distributed interest, in basis points.
pub const PROTOCOL_FEE_BPS: i128 = 1000;
/// Merchant incentive fund's part of distributed interest, in basis points.
pub const MERCHANT_FEE_BPS: i128 = 500;
/// Basis-point denominator.
pub const TOTAL_BPS: i128 = 10000;
/// Precision of the share price (10000 = 1.0).
pub const SHARE_PRICE_PRECISION: i128 = 10_000;
/// Smallest accepted deposit.
pub const MIN_AMOUNT: i128 = 1_000;
/// Unclaimable shares minted on the first deposit, backed by an equal
/// virtual liquidity in the share price.
pub const DEAD_SHARES_AMOUNT: i128 = 1_000;
/// Per-ledger outflow cap until the admin sets one (0 = disabled).
pub const DEFAULT_OUTFLOW_CAP_BPS: u32 = 0;
/// Per-merchant exposure cap until the admin sets one (0 = disabled).
pub const DEFAULT_MERCHANT_EXPOSURE_CAP: i128 = 0;
/// Upgrade timelock when the parameters contract gives none.
pub const DEFAULT_UPGRADE_DELAY_SECONDS: u64 = 86_400;

/// A proposed code upgrade waiting for its timelock.
#[derive(Clone, Copy, Debug)]
pub struct PendingUpgrade {
    pub wasm_hash: WasmHash,
    pub proposed_at: u64,
    pub unlock_at: u64,
}

/// Protocol parameters as read by the pool.
#[derive(Clone, Copy, Debug, PartialEq, Eq, Structural)]
pub struct ProtocolParameters {
    pub min_guarantee_percent: i128,
    pub min_reputation_threshold: u32,
    pub full_repayment_reward: u32,
    pub default_penalty: u32,
    pub large_loan_threshold: i128,
    pub large_loan_default_penalty: u32,
    pub base_interest_bps: u32,
    pub grace_period_seconds: u64,
    pub upgrade_delay_seconds: u64,
}

/// A token transfer out of the pool.
#[derive(Clone, Copy, Debug, PartialEq, Eq, Structural)]
pub struct Payment {
    pub to: Address,
    pub amount: i128,
}

/// How distributed interest is split, and the transfers it causes.
#[derive(Clone, Copy, Debug, PartialEq, Eq, Structural)]
pub struct InterestSplit {
    /// The providers' part.
    pub lp_amount: i128,
    pub protocol_amount: i128,
    pub merchant_amount: i128,
    /// Stays in the pool and raises the share price: the providers' part,
    /// plus the protocol or merchant part when its recipient is not set.
    pub retained_amount: i128,
    /// Transfer of the protocol part to the treasury, when one is set and
    /// the part is positive.
    pub treasury_payment: Option<Payment>,
    /// Transfer of the merchant part to the merchant fund, when one is set
    /// and the part is positive.
    pub merchant_fund_payment: Option<Payment>,
}

/// Remaining headroom after a loan was funded (0 for a disabled cap).
#[derive(Clone, Copy, Debug, PartialEq, Eq, Structural)]
pub struct FundingReceipt {
    pub outflow_remaining: i128,
    pub merchant_remaining: i128,
}

} // verus!
