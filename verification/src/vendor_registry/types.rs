use vstd::prelude::*;

verus! {

/// Where a vendor stands in the approval lifecycle. Only approved vendors
/// may receive loan funds.
#[derive(Clone, Copy, Debug, PartialEq, Eq, Structural)]
pub enum VendorStatus {
    Pending,
    Approved,
    Suspended,
    Rejected,
}

/// What the registry records about a vendor.
#[derive(Clone, Debug)]
pub struct VendorInfo {
    /// Display name, UTF-8 encoded, 1 to 64 bytes.
    pub name: Vec<u8>,
    /// Ledger time of registration.
    pub registration_date: u64,
    pub status: VendorStatus,
    pub total_sales: u64,
}

/// Longest accepted vendor name, in bytes.
pub const MAX_NAME_LEN: usize = 64;

/// The protocol parameters as this contract reads them from governance.
#[derive(Clone, Copy, Debug, PartialEq, Eq, Structural)]
pub struct ProtocolParameters {
    pub min_guarantee_percent: i128,
    pub min_reputation_threshold: u32,
    pub full_repayment_reward: u32,
    pub default_penalty: u32,
    pub large_loan_threshold: i128,
    pub large_loan_default_penalty: u32,
    pub base_interest_bps: u32,
    pub grace_period_seconds: u64,
    pub upgrade_delay_seconds: u64,
}

} // verus!
