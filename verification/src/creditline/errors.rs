use vstd::prelude::*;

verus! {

/// Errors returned by the credit-line contract.
#[derive(Clone, Copy, Debug, PartialEq, Eq, Structural)]
pub enum CreditLineError {
    NotInitialized,
    AlreadyInitialized,
    NotAdmin,
    InvalidAmount,
    InsufficientGuarantee,
    InvalidVendor,
    VendorValidationFailed,
    VendorNotActive,
    ParametersUnavailable,
    InsufficientReputation,
    InsufficientLiquidity,
    ExposureLimitExceeded,
    TokenNotConfigured,
    LoanNotFound,
    LoanNotActive,
    LoanNotOverdue,
    LoanInGracePeriod,
    InvalidLoanStatus,
    LoanNotCancellable,
    UnauthorizedRepayer,
    InvalidRepaymentAmount,
    InvalidInstallmentIndex,
    InstallmentAlreadyPaid,
    ReentrancyDetected,
    Overflow,
    Underflow,
    InsufficientRefundBalance,
    ContractPaused,
}

} // verus!
