//! On-chain credit scores (0 to 100) kept by an admin-appointed set of
//! updaters.
pub mod errors;
pub mod safe_math;
pub mod types;
pub mod contract;
