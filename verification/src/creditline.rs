//! Core lending engine: loan creation, repayment waterfall, late fees,
//! grace periods and defaults.
pub mod errors;
pub mod safe_math;
pub mod types;
pub mod storage;
pub mod ledger;
pub mod rules;
pub mod admin;
pub mod lending;
pub mod repayment;
pub mod defaults;
