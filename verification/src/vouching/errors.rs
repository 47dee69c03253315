use vstd::prelude::*;

verus! {

/// Errors returned by the vouching contract.
#[derive(Clone, Copy, Debug, PartialEq, Eq, Structural)]
pub enum VouchingError {
    NotInitialized,
    AlreadyInitialized,
    NotAdmin,
    MentorNotVerified,
    VouchAlreadyActive,
    VouchNotFound,
    VouchNotActive,
    InvalidBoost,
    ReputationCallFailed,
    ReentrancyDetected,
    Overflow,
    Underflow,
    VouchNotExpired,
}

} // verus!
