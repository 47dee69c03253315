//! Governance-tunable protocol parameters behind a multisig committee.
pub mod errors;
pub mod safe_math;
pub mod types;
pub mod storage;
pub mod governance;
