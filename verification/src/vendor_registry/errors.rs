use vstd::prelude::*;

verus! {

/// Errors returned by the vendor registry.
#[derive(Clone, Copy, Debug, PartialEq, Eq, Structural)]
pub enum Error {
    AlreadyInitialized,
    NotInitialized,
    VendorAlreadyRegistered,
    VendorNotFound,
    InvalidName,
    Unauthorized,
    Overflow,
    ReentrancyDetected,
    Underflow,
    VendorNotPending,
}

} // verus!
