//! Share-based liquidity pool: deposits, withdrawals, loan funding with
//! outflow and exposure caps, repayments and interest distribution.
pub mod errors;
pub mod safe_math;
pub mod types;
pub mod storage;
pub mod shares;
pub mod pool;
pub mod funding;
pub mod admin;
pub mod restore;
