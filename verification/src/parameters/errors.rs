use vstd::prelude::*;

verus! {

/// Errors returned by the parameters contract.
#[derive(Clone, Copy, Debug, PartialEq, Eq, Structural)]
pub enum ParametersError {
    AlreadyInitialized,
    NotAdmin,
    InvalidParameters,
    NotInitialized,
    ReentrancyDetected,
    Overflow,
    Underflow,
    MultisigAlreadyConfigured,
    MultisigNotConfigured,
    NotSigner,
    InvalidThreshold,
    DuplicateSigner,
    ProposalNotFound,
    ProposalExpired,
    ProposalAlreadyExecuted,
    DuplicateSignature,
    ThresholdNotMet,
    ProposalInvalidated,
    ApproverNotEligible,
}

} // verus!
