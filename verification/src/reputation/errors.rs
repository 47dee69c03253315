use vstd::prelude::*;

verus! {

/// Errors returned by the reputation contract.
#[derive(Clone, Copy, Debug, PartialEq, Eq, Structural)]
pub enum ReputationError {
    NotAdmin,
    NotUpdater,
    Overflow,
    Underflow,
    OutOfBounds,
    ReentrancyDetected,
    NotInitialized,
    AlreadyInitialized,
}

} // verus!
