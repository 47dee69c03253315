use vstd::prelude::*;

verus! {

/// Errors returned by the liquidity pool.
#[derive(Clone, Copy, Debug, PartialEq, Eq, Structural)]
pub enum LiquidityPoolError {
    NotAdmin,
    AlreadyInitialized,
    NotInitialized,
    InvalidAmount,
    InsufficientShares,
    InsufficientLiquidity,
    Overflow,
    Underflow,
    NotCreditLine,
    ZeroTotalShares,
    ReentrancyDetected,
    UpgradeNotProposed,
    UpgradeTimelockNotMet,
    UpgradeHashMismatch,
    ContractPaused,
    OutflowCapExceeded,
    MerchantExposureCapExceeded,
    VendorNotActive,
    InvalidCap,
}

} // verus!
