use vstd::prelude::*;
use crate::{Address, WasmHash};

verus! {

/// Protocol-wide knobs governed by the committee.
#[derive(Clone, Copy, Debug, PartialEq, Eq, Structural)]
pub struct ProtocolParameters {
    pub min_guarantee_percent: i128,
    pub min_reputation_threshold: u32,
    pub full_repayment_reward: u32,
    pub default_penalty: u32,
    pub large_loan_threshold: i128,
    pub large_loan_default_penalty: u32,
    pub base_interest_bps: u32,
    pub grace_period_seconds: u64,
    pub upgrade_delay_seconds: u64,
    pub late_fee_bps: u32,
}

/// The parameters a fresh deployment starts from.
pub open spec fn spec_default_parameters() -> ProtocolParameters {
    ProtocolParameters {
        min_guarantee_percent: 20,
        min_reputation_threshold: 50,
        full_repayment_reward: 10,
        default_penalty: 20,
        large_loan_threshold: 5_000,
        large_loan_default_penalty: 30,
        base_interest_bps: 0,
        grace_period_seconds: 0,
        upgrade_delay_seconds: 86_400,
        late_fee_bps: 500,
    }
}

/// The parameters a fresh deployment starts from.
pub fn default_parameters() -> (p: ProtocolParameters)
    ensures
        p == spec_default_parameters(),
{
    ProtocolParameters {
        min_guarantee_percent: 20,
        min_reputation_threshold: 50,
        full_repayment_reward: 10,
        default_penalty: 20,
        large_loan_threshold: 5_000,
        large_loan_default_penalty: 30,
        base_interest_bps: 0,
        grace_period_seconds: 0,
        upgrade_delay_seconds: 86_400,
        late_fee_bps: 500,
    }
}

/// A signer committee: `threshold` of `signers` approve a proposal.
#[derive(Debug)]
pub struct MultisigConfig {
    pub signers: Vec<Address>,
    pub threshold: u32,
}

/// What a proposal does when executed.
#[derive(Debug)]
pub enum ProposalAction {
    UpdateParameters(ProtocolParameters),
    SetAdmin(Address),
    Upgrade(WasmHash),
    UpdateSigners(MultisigConfig),
    /// Sets the fee on late installment payments, in basis points.
    SetLateFeeBps(u32),
}

/// A governance proposal.
#[derive(Debug)]
pub struct Proposal {
    pub id: u64,
    pub action: ProposalAction,
    pub proposer: Address,
    /// Signers who approved, the proposer first.
    pub approvals: Vec<Address>,
    /// The committee at proposal time; only its members may approve.
    pub snapshot: Vec<Address>,
    pub created_at: u64,
    pub expires_at: u64,
    pub executed: bool,
    /// Set when a signer-set change voided this proposal.
    pub invalidated: bool,
}

/// Lifetime of a proposal: seven days.
pub const PROPOSAL_TTL_SECONDS: u64 = 604_800;

/// Whether `s` holds no element twice.
pub open spec fn spec_no_duplicates(s: Seq<Address>) -> bool {
    forall|i: int, j: int| 0 <= i < j < s.len() ==> s[i] != s[j]
}

/// Whether `v` holds `x`.
pub fn contains_address(v: &Vec<Address>, x: Address) -> (r: bool)
    ensures
        r == v@.contains(x),
{
    let mut i: usize = 0;
    while i < v.len()
        invariant
            0 <= i <= v@.len(),
            forall|j: int| 0 <= j < i ==> v@[j] != x,
        decreases v@.len() - i,
    {
        if v[i] == x {
            return true;
        }
        i = i + 1;
    }
    false
}

/// A copy of `v`.
pub fn copy_addresses(v: &Vec<Address>) -> (r: Vec<Address>)
    ensures
        r@ == v@,
{
    let mut r: Vec<Address> = Vec::new();
    let mut i: usize = 0;
    while i < v.len()
        invariant
            0 <= i <= v@.len(),
            r@ == v@.subrange(0, i as int),
        decreases v@.len() - i,
    {
        r.push(v[i]);
        i = i + 1;
    }
    proof {
        assert(v@.subrange(0, v@.len() as int) =~= v@);
    }
    r
}

impl MultisigConfig {
    /// A copy of this committee.
    pub fn copy(&self) -> (r: MultisigConfig)
        ensures
            r.signers@ == self.signers@,
            r.threshold == self.threshold,
    {
        MultisigConfig { signers: copy_addresses(&self.signers), threshold: self.threshold }
    }
}

} // verus!
