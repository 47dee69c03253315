use vstd::prelude::*;
use crate::{Address, WasmHash};
use super::errors::ParametersError;
use super::storage::ParametersContract;
use super::types::{
    contains_address, copy_addresses, default_parameters, spec_default_parameters,
    spec_no_duplicates, MultisigConfig, Proposal, ProposalAction, ProtocolParameters,
    PROPOSAL_TTL_SECONDS,
};

verus! {

broadcast use vstd::std_specs::hash::group_hash_axioms;

/// Parameter rules: the guarantee percentage lies in `1..=100` and the
/// large-loan threshold is positive.
pub open spec fn spec_validate_parameters(params: ProtocolParameters) -> Result<(), ParametersError> {
    if params.min_guarantee_percent <= 0 || params.min_guarantee_percent > 100
        || params.large_loan_threshold <= 0 {
        Err(ParametersError::InvalidParameters)
    } else {
        Ok(())
    }
}

/// Committee rules: a threshold between 2 and the number of signers, and no
/// signer listed twice.
pub open spec fn spec_validate_multisig(signers: Seq<Address>, threshold: u32) -> Result<
    (),
    ParametersError,
> {
    if threshold < 2 || threshold > signers.len() {
        Err(ParametersError::InvalidThreshold)
    } else if !spec_no_duplicates(signers) {
        Err(ParametersError::DuplicateSigner)
    } else {
        Ok(())
    }
}

/// Rules an action must satisfy to be proposed or executed.
pub open spec fn spec_validate_action(action: ProposalAction) -> Result<(), ParametersError> {
    match action {
        ProposalAction::UpdateParameters(p) => spec_validate_parameters(p),
        ProposalAction::UpdateSigners(c) => spec_validate_multisig(c.signers@, c.threshold),
        _ => Ok(()),
    }
}

/// Approvals needed to execute `action` under `config`: the threshold, or
/// for a signer-set change one more (capped at the whole committee).
pub open spec fn spec_required_quorum(action: ProposalAction, config: MultisigConfig) -> int {
    match action {
        ProposalAction::UpdateSigners(_) => if config.threshold + 1 < config.signers@.len() {
            config.threshold + 1
        } else {
            config.signers@.len() as int
        },
        _ => config.threshold as int,
    }
}

/// Every approval comes from a member of the snapshot who is still a
/// current signer.
pub open spec fn spec_approvals_eligible(p: Proposal, signers: Seq<Address>) -> bool {
    forall|i: int|
        0 <= i < p.approvals@.len() ==> p.snapshot@.contains(#[trigger] p.approvals@[i])
            && signers.contains(p.approvals@[i])
}

/// Whether a signer-set change voids `p`: it is itself an unexecuted
/// signer-set change.
pub open spec fn spec_voided_by_signer_change(p: Proposal) -> bool {
    p.action is UpdateSigners && !p.executed
}

/// Checks the parameter rules.
pub fn validate_parameters(params: &ProtocolParameters) -> (r: Result<(), ParametersError>)
    ensures
        r == spec_validate_parameters(*params),
{
    if params.min_guarantee_percent <= 0 || params.min_guarantee_percent > 100
        || params.large_loan_threshold <= 0 {
        return Err(ParametersError::InvalidParameters);
    }
    Ok(())
}

/// Checks the committee rules.
pub fn validate_multisig_config(config: &MultisigConfig) -> (r: Result<(), ParametersError>)
    ensures
        r == spec_validate_multisig(config.signers@, config.threshold),
{
    let n = config.signers.len();
    if config.threshold < 2 || config.threshold as usize > n {
        return Err(ParametersError::InvalidThreshold);
    }
    let mut i: usize = 0;
    while i < n
        invariant
            n == config.signers@.len(),
            2 <= config.threshold <= n,
            0 <= i <= n,
            forall|a: int, b: int| 0 <= a < b < n && a < i ==> config.signers@[a] != config.signers@[b],
        decreases n - i,
    {
        let a = config.signers[i];
        let mut j: usize = i + 1;
        while j < n
            invariant
                n == config.signers@.len(),
                2 <= config.threshold <= n,
                0 <= i < n,
                i + 1 <= j <= n,
                a == config.signers@[i as int],
                forall|x: int, y: int| 0 <= x < y < n && x < i ==> config.signers@[x] != config.signers@[y],
                forall|y: int| i < y < j ==> config.signers@[i as int] != config.signers@[y],
            decreases n - j,
        {
            if a == config.signers[j] {
                proof {
                    assert(!spec_no_duplicates(config.signers@)) by {
                        assert(config.signers@[i as int] == config.signers@[j as int]);
                    }
                }
                return Err(ParametersError::DuplicateSigner);
            }
            j = j + 1;
        }
        i = i + 1;
    }
    Ok(())
}

/// Checks the rules of a proposed action.
fn validate_action(action: &ProposalAction) -> (r: Result<(), ParametersError>)
    ensures
        r == spec_validate_action(*action),
{
    match action {
        ProposalAction::UpdateParameters(p) => validate_parameters(p),
        ProposalAction::UpdateSigners(c) => validate_multisig_config(c),
        _ => Ok(()),
    }
}

/// Whether every approval comes from a snapshot member who is still a
/// current signer.
fn approvals_eligible(p: &Proposal, signers: &Vec<Address>) -> (r: bool)
    ensures
        r == spec_approvals_eligible(*p, signers@),
{
    let mut i: usize = 0;
    while i < p.approvals.len()
        invariant
            0 <= i <= p.approvals@.len(),
            forall|j: int|
                0 <= j < i ==> p.snapshot@.contains(#[trigger] p.approvals@[j])
                    && signers@.contains(p.approvals@[j]),
        decreases p.approvals@.len() - i,
    {
        let a = p.approvals[i];
        if !contains_address(&p.snapshot, a) || !contains_address(signers, a) {
            return false;
        }
        i = i + 1;
    }
    true
}

/// Outcome of a successful execution.
#[derive(Debug)]
pub struct ExecutionOutcome {
    /// `(code hash, old_version, new_version)` when the action was an
    /// upgrade; the caller installs the code.
    pub upgraded: Option<(WasmHash, u32, u32)>,
    /// Proposals voided by a signer-set change.
    pub invalidated: Vec<u64>,
}

impl ParametersContract {
    /// One-time setup of the admin and the initial parameters.
    pub fn initialize(&mut self, admin: Address, params: ProtocolParameters) -> (r: Result<
        (),
        ParametersError,
    >)
        ensures
            r is Ok <==> old(self).admin is None && spec_validate_parameters(params) is Ok,
            r is Err ==> *final(self) == *old(self) && r->Err_0 == (if old(self).admin is Some {
                ParametersError::AlreadyInitialized
            } else {
                ParametersError::InvalidParameters
            }),
            r is Ok ==> *final(self) == (ParametersContract {
                admin: Some(admin),
                params: Some(params),
                ..*old(self)
            }),
    {
        if self.admin.is_some() {
            return Err(ParametersError::AlreadyInitialized);
        }
        validate_parameters(&params)?;
        self.admin = Some(admin);
        self.params = Some(params);
        Ok(())
    }

    /// `initialize` with the default parameters.
    pub fn initialize_defaults(&mut self, admin: Address) -> (r: Result<(), ParametersError>)
        ensures
            r is Ok <==> old(self).admin is None,
            r is Err ==> *final(self) == *old(self) && r->Err_0
                == ParametersError::AlreadyInitialized,
            r is Ok ==> *final(self) == (ParametersContract {
                admin: Some(admin),
                params: Some(spec_default_parameters()),
                ..*old(self)
            }),
    {
        self.initialize(admin, default_parameters())
    }

    /// First step of installing the committee (admin authorizes): records a
    /// pending committee, which takes effect only when confirmed. Refused once
    /// a committee is pending or active.
    pub fn configure_multisig(&mut self, signers: Vec<Address>, threshold: u32) -> (r: Result<
        (),
        ParametersError,
    >)
        ensures
            ({
                let v = spec_validate_multisig(signers@, threshold);
                &&& r is Ok <==> old(self).admin is Some && old(self).multisig is None && old(
                    self).pending_multisig is None && v is Ok && !old(self).reentrancy_locked
                &&& r is Err ==> *final(self) == *old(self) && r->Err_0 == (if old(self).admin is None {
                    ParametersError::NotInitialized
                } else if old(self).multisig is Some || old(self).pending_multisig is Some {
                    ParametersError::MultisigAlreadyConfigured
                } else if v is Err {
                    v->Err_0
                } else {
                    ParametersError::ReentrancyDetected
                })
                &&& r is Ok ==> final(self).pending_multisig is Some && final(
                    self).pending_multisig->Some_0.signers@ == signers@ && final(
                    self).pending_multisig->Some_0.threshold == threshold && *final(self) == (
                ParametersContract { pending_multisig: final(self).pending_multisig, ..*old(self) })
            }),
    {
        let _admin = self.get_admin()?;
        if self.multisig.is_some() || self.pending_multisig.is_some() {
            return Err(ParametersError::MultisigAlreadyConfigured);
        }
        let config = MultisigConfig { signers, threshold };
        validate_multisig_config(&config)?;
        if self.reentrancy_locked {
            return Err(ParametersError::ReentrancyDetected);
        }
        self.pending_multisig = Some(config);
        Ok(())
    }

    /// Second step (admin authorizes): the pending committee becomes the
    /// active one.
    pub fn confirm_multisig(&mut self) -> (r: Result<(), ParametersError>)
        ensures
            r is Ok <==> old(self).admin is Some && old(self).multisig is None && old(
                self).pending_multisig is Some,
            r is Err ==> *final(self) == *old(self) && r->Err_0 == (if old(self).admin is None {
                ParametersError::NotInitialized
            } else if old(self).multisig is Some {
                ParametersError::MultisigAlreadyConfigured
            } else {
                ParametersError::MultisigNotConfigured
            }),
            r is Ok ==> *final(self) == (ParametersContract {
                multisig: old(self).pending_multisig,
                pending_multisig: None,
                ..*old(self)
            }),
    {
        let _admin = self.get_admin()?;
        if self.multisig.is_some() {
            return Err(ParametersError::MultisigAlreadyConfigured);
        }
        if self.pending_multisig.is_none() {
            return Err(ParametersError::MultisigNotConfigured);
        }
        let pending = self.pending_multisig.take();
        self.multisig = pending;
        Ok(())
    }

    /// `caller` must be a current signer.
    pub open spec fn spec_require_signer(self, caller: Address) -> Result<(), ParametersError> {
        match self.multisig {
            None => Err(ParametersError::MultisigNotConfigured),
            Some(c) => if c.signers@.contains(caller) {
                Ok(())
            } else {
                Err(ParametersError::NotSigner)
            },
        }
    }

    /// `caller` must be a current signer.
    pub fn require_signer(&self, caller: Address) -> (r: Result<(), ParametersError>)
        ensures
            r == self.spec_require_signer(caller),
    {
        match &self.multisig {
            None => Err(ParametersError::MultisigNotConfigured),
            Some(c) => if contains_address(&c.signers, caller) {
                Ok(())
            } else {
                Err(ParametersError::NotSigner)
            },
        }
    }

    /// Every check `propose` performs, in order.
    pub open spec fn spec_propose(self, proposer: Address, action: ProposalAction, now: u64) -> Result<
        (),
        ParametersError,
    > {
        if self.spec_require_signer(proposer) is Err {
            Err(self.spec_require_signer(proposer)->Err_0)
        } else if spec_validate_action(action) is Err {
            Err(spec_validate_action(action)->Err_0)
        } else if now + PROPOSAL_TTL_SECONDS > u64::MAX || self.proposal_count == u64::MAX {
            Err(ParametersError::Overflow)
        } else {
            Ok(())
        }
    }

    /// A current signer proposes `action`. The proposer's approval counts
    /// first, the committee at this moment is recorded as the snapshot of
    /// eligible approvers, and the proposal expires seven days after `now`.
    /// Returns the new proposal's id.
    pub fn propose(&mut self, proposer: Address, action: ProposalAction, now: u64) -> (r: Result<
        u64,
        ParametersError,
    >)
        requires
            old(self).wf(),
        ensures
            final(self).wf(),
            ({
                let c = old(self).spec_propose(proposer, action, now);
                let id = old(self).proposal_count;
                let p = final(self).proposals@[id];
                &&& r is Ok <==> c is Ok
                &&& r is Err ==> r->Err_0 == c->Err_0 && *final(self) == *old(self)
                &&& r is Ok ==> {
                    &&& r->Ok_0 == id
                    &&& final(self).proposal_count == id + 1
                    &&& final(self).proposals@ == old(self).proposals@.insert(id, p)
                    &&& final(self).proposal_ids@ == old(self).proposal_ids@.push(id)
                    &&& p.id == id
                    &&& p.action == action
                    &&& p.proposer == proposer
                    &&& p.approvals@ == seq![proposer]
                    &&& p.snapshot@ == old(self).multisig->Some_0.signers@
                    &&& p.created_at == now
                    &&& p.expires_at == now + PROPOSAL_TTL_SECONDS
                    &&& !p.executed
                    &&& !p.invalidated
                    &&& final(self).admin == old(self).admin
                    &&& final(self).params == old(self).params
                    &&& final(self).multisig == old(self).multisig
                    &&& final(self).pending_multisig == old(self).pending_multisig
                    &&& final(self).version == old(self).version
                    &&& final(self).reentrancy_locked == old(self).reentrancy_locked
                }
            }),
    {
        self.require_signer(proposer)?;
        validate_action(&action)?;
        let expires_at = match now.checked_add(PROPOSAL_TTL_SECONDS) {
            Some(e) => e,
            None => {
                return Err(ParametersError::Overflow);
            },
        };
        if self.proposal_count == u64::MAX {
            return Err(ParametersError::Overflow);
        }
        let id = self.proposal_count;
        let snapshot = match &self.multisig {
            Some(c) => copy_addresses(&c.signers),
            None => Vec::new(),
        };
        let mut approvals: Vec<Address> = Vec::new();
        approvals.push(proposer);
        let proposal = Proposal {
            id,
            action,
            proposer,
            approvals,
            snapshot,
            created_at: now,
            expires_at,
            executed: false,
            invalidated: false,
        };
        proof {
            if old(self).proposals@.contains_key(id) {
                assert(old(self).proposals@[id].id == id);
            }
        }
        self.proposals.insert(id, proposal);
        self.proposal_ids.push(id);
        self.proposal_count = id + 1;
        proof {
            assert forall|k: u64| #[trigger] self.proposals@.contains_key(k) implies {
                &&& self.proposals@[k].id == k
                &&& k < self.proposal_count
                &&& self.proposal_ids@.contains(k)
            } by {
                if k != id {
                    assert(old(self).proposals@[k].id == k);
                    let i = choose|i: int| 0 <= i < old(self).proposal_ids@.len() && old(self).proposal_ids@[i] == k;
                    assert(self.proposal_ids@[i] == k);
                } else {
                    assert(self.proposal_ids@[self.proposal_ids@.len() - 1] == k);
                }
            }
        }
        Ok(id)
    }

    /// Every check `approve` performs, in order.
    pub open spec fn spec_approve(self, signer: Address, proposal_id: u64, now: u64) -> Result<
        (),
        ParametersError,
    > {
        if self.spec_require_signer(signer) is Err {
            Err(self.spec_require_signer(signer)->Err_0)
        } else if !self.proposals@.contains_key(proposal_id) {
            Err(ParametersError::ProposalNotFound)
        } else {
            let p = self.proposals@[proposal_id];
            if p.executed {
                Err(ParametersError::ProposalAlreadyExecuted)
            } else if p.invalidated {
                Err(ParametersError::ProposalInvalidated)
            } else if now > p.expires_at {
                Err(ParametersError::ProposalExpired)
            } else if !p.snapshot@.contains(signer) {
                Err(ParametersError::ApproverNotEligible)
            } else if p.approvals@.contains(signer) {
                Err(ParametersError::DuplicateSignature)
            } else {
                Ok(())
            }
        }
    }

    /// A current signer who was a committee member when the proposal was
    /// made approves it, once, before it expires, while it is neither
    /// executed nor voided.
    pub fn approve(&mut self, signer: Address, proposal_id: u64, now: u64) -> (r: Result<
        (),
        ParametersError,
    >)
        requires
            old(self).wf(),
        ensures
            final(self).wf(),
            ({
                let c = old(self).spec_approve(signer, proposal_id, now);
                let p = old(self).proposals@[proposal_id];
                let q = final(self).proposals@[proposal_id];
                &&& r == c
                &&& r is Err ==> *final(self) == *old(self)
                &&& r is Ok ==> {
                    &&& final(self).proposals@ == old(self).proposals@.insert(proposal_id, q)
                    &&& q.approvals@ == p.approvals@.push(signer)
                    &&& q == (Proposal { approvals: q.approvals, ..p })
                    &&& *final(self) == (ParametersContract { proposals: final(self).proposals, ..*old(self) })
                }
            }),
    {
        self.require_signer(signer)?;
        let (executed, invalidated, expires_at, in_snapshot, duplicate) = {
            let p = match self.proposals.get(&proposal_id) {
                Some(p) => p,
                None => {
                    return Err(ParametersError::ProposalNotFound);
                },
            };
            (
                p.executed,
                p.invalidated,
                p.expires_at,
                contains_address(&p.snapshot, signer),
                contains_address(&p.approvals, signer),
            )
        };
        if executed {
            return Err(ParametersError::ProposalAlreadyExecuted);
        }
        if invalidated {
            return Err(ParametersError::ProposalInvalidated);
        }
        if now > expires_at {
            return Err(ParametersError::ProposalExpired);
        }
        if !in_snapshot {
            return Err(ParametersError::ApproverNotEligible);
        }
        if duplicate {
            return Err(ParametersError::DuplicateSignature);
        }
        let mut p = self.proposals.remove(&proposal_id).unwrap();
        p.approvals.push(signer);
        self.proposals.insert(proposal_id, p);
        proof {
            assert forall|k: u64| #[trigger] self.proposals@.contains_key(k) implies {
                &&& self.proposals@[k].id == k
                &&& k < self.proposal_count
                &&& self.proposal_ids@.contains(k)
            } by {
                assert(old(self).proposals@.contains_key(k));
                assert(old(self).proposals@[k].id == k);
            }
        }
        Ok(())
    }

    /// Every check `execute` performs, in order.
    pub open spec fn spec_execute(self, proposal_id: u64, now: u64) -> Result<(), ParametersError> {
        if !self.proposals@.contains_key(proposal_id) {
            Err(ParametersError::ProposalNotFound)
        } else {
            let p = self.proposals@[proposal_id];
            if p.executed {
                Err(ParametersError::ProposalAlreadyExecuted)
            } else if p.invalidated {
                Err(ParametersError::ProposalInvalidated)
            } else if now > p.expires_at {
                Err(ParametersError::ProposalExpired)
            } else if self.multisig is None {
                Err(ParametersError::MultisigNotConfigured)
            } else if !spec_approvals_eligible(p, self.multisig->Some_0.signers@) {
                Err(ParametersError::ApproverNotEligible)
            } else if p.approvals@.len() < spec_required_quorum(p.action, self.multisig->Some_0) {
                Err(ParametersError::ThresholdNotMet)
            } else if self.reentrancy_locked {
                Err(ParametersError::ReentrancyDetected)
            } else {
                match p.action {
                    ProposalAction::UpdateParameters(params) => if spec_validate_parameters(
                        params,
                    ) is Err {
                        Err(ParametersError::InvalidParameters)
                    } else if self.admin is None {
                        Err(ParametersError::NotInitialized)
                    } else {
                        Ok(())
                    },
                    ProposalAction::SetAdmin(_) => if self.admin is None {
                        Err(ParametersError::NotInitialized)
                    } else {
                        Ok(())
                    },
                    ProposalAction::Upgrade(_) => Ok(()),
                    ProposalAction::UpdateSigners(c) => spec_validate_multisig(
                        c.signers@,
                        c.threshold,
                    ),
                    ProposalAction::SetLateFeeBps(_) => if self.params is None {
                        Err(ParametersError::NotInitialized)
                    } else {
                        Ok(())
                    },
                }
            }
        }
    }

    /// The proposals after executing `proposal_id`: it is marked executed,
    /// and a signer-set change voids every other unexecuted signer-set change.
    pub open spec fn spec_proposals_after_execute(
        proposals: Map<u64, Proposal>,
        proposal_id: u64,
        signer_change: bool,
    ) -> Map<u64, Proposal> {
        Map::new(
            |k: u64| proposals.contains_key(k),
            |k: u64|
                if k == proposal_id {
                    Proposal { executed: true, ..proposals[k] }
                } else if signer_change && spec_voided_by_signer_change(proposals[k]) {
                    Proposal { invalidated: true, ..proposals[k] }
                } else {
                    proposals[k]
                },
        )
    }

    /// The version after an upgrade from `v`: one more, saturating.
    pub open spec fn spec_next_version(v: u32) -> u32 {
        if v < u32::MAX {
            (v + 1) as u32
        } else {
            v
        }
    }

    /// Executes a proposal that has its quorum (permissionless: the
    /// approvals are the authorization). Every approval must come from a
    /// snapshot member who is still a signer; a signer-set change needs one
    /// approval more than the threshold (at most the whole committee). On
    /// success the action takes effect and the proposal is marked executed;
    /// a signer-set change also voids the other pending signer-set changes.
    pub fn execute(&mut self, proposal_id: u64, now: u64) -> (r: Result<
        ExecutionOutcome,
        ParametersError,
    >)
        requires
            old(self).wf(),
        ensures
            final(self).wf(),
            ({
                let c = old(self).spec_execute(proposal_id, now);
                let p = old(self).proposals@[proposal_id];
                let signer_change = p.action is UpdateSigners;
                &&& r is Ok <==> c is Ok
                &&& r is Err ==> r->Err_0 == c->Err_0 && *final(self) == *old(self)
                &&& r is Ok ==> {
                    let out = r->Ok_0;
                    &&& final(self).proposals@ == Self::spec_proposals_after_execute(
                        old(self).proposals@,
                        proposal_id,
                        signer_change,
                    )
                    &&& final(self).proposal_ids@ == old(self).proposal_ids@
                    &&& final(self).proposal_count == old(self).proposal_count
                    &&& final(self).pending_multisig == old(self).pending_multisig
                    &&& final(self).reentrancy_locked == old(self).reentrancy_locked
                    &&& final(self).admin == (match p.action {
                        ProposalAction::SetAdmin(a) => Some(a),
                        _ => old(self).admin,
                    })
                    &&& final(self).params == (match p.action {
                        ProposalAction::UpdateParameters(q) => Some(q),
                        ProposalAction::SetLateFeeBps(bps) => Some(
                            ProtocolParameters { late_fee_bps: bps, ..old(self).params->Some_0 },
                        ),
                        _ => old(self).params,
                    })
                    &&& final(self).version == (match p.action {
                        ProposalAction::Upgrade(_) => Self::spec_next_version(old(self).version),
                        _ => old(self).version,
                    })
                    &&& out.upgraded == (match p.action {
                        ProposalAction::Upgrade(h) => Some(
                            (h, old(self).version, Self::spec_next_version(old(self).version)),
                        ),
                        _ => None,
                    })
                    &&& final(self).multisig is Some
                    &&& match p.action {
                        ProposalAction::UpdateSigners(cfg) => final(self).multisig->Some_0.signers@
                            == cfg.signers@ && final(self).multisig->Some_0.threshold
                            == cfg.threshold,
                        _ => final(self).multisig == old(self).multisig,
                    }
                    &&& forall|k: u64|
                        out.invalidated@.contains(k) <==> signer_change && k != proposal_id
                            && old(self).proposals@.contains_key(k)
                            && spec_voided_by_signer_change(old(self).proposals@[k]) && !old(
                            self).proposals@[k].invalidated
                }
            }),
    {
        let (executed, invalidated, expires_at) = match self.proposals.get(&proposal_id) {
            Some(p) => (p.executed, p.invalidated, p.expires_at),
            None => {
                return Err(ParametersError::ProposalNotFound);
            },
        };
        if executed {
            return Err(ParametersError::ProposalAlreadyExecuted);
        }
        if invalidated {
            return Err(ParametersError::ProposalInvalidated);
        }
        if now > expires_at {
            return Err(ParametersError::ProposalExpired);
        }
        let (eligible, approvals, quorum) = match &self.multisig {
            None => {
                return Err(ParametersError::MultisigNotConfigured);
            },
            Some(c) => {
                let p = self.proposals.get(&proposal_id).unwrap();
                let eligible = approvals_eligible(p, &c.signers);
                let n = c.signers.len() as u64;
                let t = c.threshold as u64;
                let quorum = match &p.action {
                    ProposalAction::UpdateSigners(_) => if t + 1 < n {
                        t + 1
                    } else {
                        n
                    },
                    _ => t,
                };
                (eligible, p.approvals.len() as u64, quorum)
            },
        };
        if !eligible {
            return Err(ParametersError::ApproverNotEligible);
        }
        if approvals < quorum {
            return Err(ParametersError::ThresholdNotMet);
        }
        if self.reentrancy_locked {
            return Err(ParametersError::ReentrancyDetected);
        }
        let check = match &self.proposals.get(&proposal_id).unwrap().action {
            ProposalAction::UpdateParameters(q) => if validate_parameters(q).is_err() {
                Err(ParametersError::InvalidParameters)
            } else if self.admin.is_none() {
                Err(ParametersError::NotInitialized)
            } else {
                Ok(())
            },
            ProposalAction::SetAdmin(_) => if self.admin.is_none() {
                Err(ParametersError::NotInitialized)
            } else {
                Ok(())
            },
            ProposalAction::Upgrade(_) => Ok(()),
            ProposalAction::UpdateSigners(cfg) => validate_multisig_config(cfg),
            ProposalAction::SetLateFeeBps(_) => if self.params.is_none() {
                Err(ParametersError::NotInitialized)
            } else {
                Ok(())
            },
        };
        check?;
        let ghost old_props = self.proposals@;
        let mut p = self.proposals.remove(&proposal_id).unwrap();
        let mut upgraded: Option<(WasmHash, u32, u32)> = None;
        let mut signer_change = false;
        match &p.action {
            ProposalAction::UpdateParameters(q) => {
                self.params = Some(*q);
            },
            ProposalAction::SetAdmin(a) => {
                self.admin = Some(*a);
            },
            ProposalAction::Upgrade(h) => {
                let old_version = self.version;
                let new_version = if old_version < u32::MAX {
                    old_version + 1
                } else {
                    old_version
                };
                self.version = new_version;
                upgraded = Some((*h, old_version, new_version));
            },
            ProposalAction::UpdateSigners(cfg) => {
                self.multisig = Some(cfg.copy());
                signer_change = true;
            },
            ProposalAction::SetLateFeeBps(bps) => {
                let current = self.params.unwrap();
                self.params = Some(ProtocolParameters { late_fee_bps: *bps, ..current });
            },
        }
        p.executed = true;
        self.proposals.insert(proposal_id, p);
        proof {
            assert forall|k: u64| #[trigger] self.proposals@.contains_key(k) implies {
                &&& self.proposals@[k].id == k
                &&& k < self.proposal_count
                &&& self.proposal_ids@.contains(k)
            } by {
                assert(old_props.contains_key(k));
                assert(old_props[k].id == k);
            }
        }
        let ghost marked = self.proposals@;
        let invalidated = if signer_change {
            self.invalidate_signer_proposals(proposal_id)
        } else {
            Vec::new()
        };
        proof {
            assert(self.proposals@ =~= Self::spec_proposals_after_execute(
                old_props,
                proposal_id,
                signer_change,
            ));
            assert forall|k: u64|
                invalidated@.contains(k) <==> signer_change && k != proposal_id
                    && old_props.contains_key(k) && spec_voided_by_signer_change(old_props[k])
                    && !old_props[k].invalidated by {
                if k != proposal_id && old_props.contains_key(k) {
                    assert(marked[k] == old_props[k]);
                }
            }
        }
        Ok(ExecutionOutcome { upgraded, invalidated })
    }

    /// Voids every unexecuted signer-set change other than `proposal_id` and
    /// returns the ids that were not void before.
    fn invalidate_signer_proposals(&mut self, proposal_id: u64) -> (voided: Vec<u64>)
        requires
            old(self).wf(),
        ensures
            final(self).wf(),
            final(self).proposals@ == Map::new(
                |k: u64| old(self).proposals@.contains_key(k),
                |k: u64|
                    if k != proposal_id && spec_voided_by_signer_change(old(self).proposals@[k]) {
                        Proposal { invalidated: true, ..old(self).proposals@[k] }
                    } else {
                        old(self).proposals@[k]
                    },
            ),
            forall|k: u64|
                voided@.contains(k) <==> k != proposal_id && old(self).proposals@.contains_key(k)
                    && spec_voided_by_signer_change(old(self).proposals@[k]) && !old(
                    self).proposals@[k].invalidated,
            *final(self) == (ParametersContract { proposals: final(self).proposals, ..*old(self) }),
    {
        let ghost old_props = self.proposals@;
        let mut voided: Vec<u64> = Vec::new();
        let n = self.proposal_ids.len();
        let mut i: usize = 0;
        while i < n
            invariant
                n == self.proposal_ids@.len(),
                0 <= i <= n,
                old_props == old(self).proposals@,
                self.proposal_ids == old(self).proposal_ids,
                *self == (ParametersContract { proposals: self.proposals, ..*old(self) }),
                self.proposals@.dom() == old_props.dom(),
                forall|k: u64|
                    #![trigger self.proposals@[k]]
                    old_props.contains_key(k) ==> self.proposals@[k] == (if k != proposal_id
                        && self.proposal_ids@.subrange(0, i as int).contains(k)
                        && spec_voided_by_signer_change(old_props[k]) {
                        Proposal { invalidated: true, ..old_props[k] }
                    } else {
                        old_props[k]
                    }),
                forall|k: u64|
                    voided@.contains(k) <==> k != proposal_id && self.proposal_ids@.subrange(
                        0,
                        i as int,
                    ).contains(k) && old_props.contains_key(k) && spec_voided_by_signer_change(
                        old_props[k],
                    ) && !old_props[k].invalidated,
            decreases n - i,
        {
            let k = self.proposal_ids[i];
            let ghost prefix = self.proposal_ids@.subrange(0, i as int);
            let ghost next = self.proposal_ids@.subrange(0, i + 1);
            let ghost v0 = voided@;
            let ghost cur = self.proposals@[k];
            proof {
                assert(next =~= prefix.push(k));
                assert forall|x: u64| next.contains(x) <==> prefix.contains(x) || x == k by {
                    if x == k {
                        assert(next[i as int] == k);
                    }
                    if prefix.contains(x) {
                        let j = choose|j: int| 0 <= j < prefix.len() && prefix[j] == x;
                        assert(next[j] == x);
                    }
                    if next.contains(x) && x != k {
                        let j = choose|j: int| 0 <= j < next.len() && next[j] == x;
                        assert(prefix[j] == x);
                    }
                }
            }
            let mut flag: u8 = 0;
            if k != proposal_id {
                flag = match self.proposals.get(&k) {
                    Some(p) => {
                        let is_signer_change = match p.action {
                            ProposalAction::UpdateSigners(_) => true,
                            _ => false,
                        };
                        if is_signer_change && !p.executed {
                            if p.invalidated {
                                1u8
                            } else {
                                2u8
                            }
                        } else {
                            0u8
                        }
                    },
                    None => 0u8,
                };
                if flag > 0 {
                    let mut p = self.proposals.remove(&k).unwrap();
                    p.invalidated = true;
                    self.proposals.insert(k, p);
                    if flag == 2 {
                        voided.push(k);
                    }
                }
            }
            proof {
                let ghost pk = k != proposal_id && old_props.contains_key(k)
                    && spec_voided_by_signer_change(old_props[k]) && !old_props[k].invalidated;
                if old_props.contains_key(k) {
                    assert(cur == old_props[k] || cur == (Proposal { invalidated: true, ..old_props[k] }));
                    if cur != old_props[k] {
                        assert(prefix.contains(k));
                    }
                }
                if flag == 2 {
                    assert(pk);
                    assert(voided@ == v0.push(k));
                } else {
                    assert(voided@ == v0);
                    if pk {
                        assert(cur != old_props[k]);
                        assert(prefix.contains(k));
                        assert(v0.contains(k));
                    }
                }
                assert forall|x: u64|
                    #[trigger] voided@.contains(x) <==> (x != proposal_id && next.contains(x)
                        && old_props.contains_key(x) && spec_voided_by_signer_change(old_props[x])
                        && !old_props[x].invalidated) by {
                    if flag == 2 {
                        if x == k {
                            assert(voided@[v0.len() as int] == k);
                        }
                        if v0.contains(x) {
                            let j = choose|j: int| 0 <= j < v0.len() && v0[j] == x;
                            assert(voided@[j] == x);
                        }
                        if voided@.contains(x) && x != k {
                            let j = choose|j: int| 0 <= j < voided@.len() && voided@[j] == x;
                            assert(v0[j] == x);
                        }
                    }
                }
            }
            i = i + 1;
            assert(self.proposal_ids@.subrange(0, i as int) == next);
        }
        proof {
            assert(self.proposal_ids@.subrange(0, n as int) =~= self.proposal_ids@);
            assert forall|k: u64| #[trigger] self.proposals@.contains_key(k) implies {
                &&& self.proposals@[k].id == k
                &&& k < self.proposal_count
                &&& self.proposal_ids@.contains(k)
            } by {
                assert(old(self).proposals@[k].id == k);
            }
            assert(self.proposals@ =~= Map::new(
                |k: u64| old(self).proposals@.contains_key(k),
                |k: u64|
                    if k != proposal_id && spec_voided_by_signer_change(old(self).proposals@[k]) {
                        Proposal { invalidated: true, ..old(self).proposals@[k] }
                    } else {
                        old(self).proposals@[k]
                    },
            ));
        }
        voided
    }
}

/// A proposal executes at most once, and a signer-set change it carries
/// voids the other pending signer-set changes for good: once `execute`
/// succeeded on `proposal_id`, executing it again is refused as already
/// executed, and executing a proposal it voided is refused as voided, at
/// any later time.
pub proof fn lemma_execution_is_final(
    before: ParametersContract,
    after: ParametersContract,
    proposal_id: u64,
    now: u64,
    other: u64,
    later: u64,
)
    requires
        before.spec_execute(proposal_id, now) is Ok,
        after.proposals@ == ParametersContract::spec_proposals_after_execute(
            before.proposals@,
            proposal_id,
            before.proposals@[proposal_id].action is UpdateSigners,
        ),
    ensures
        after.spec_execute(proposal_id, later) == Err::<(), ParametersError>(
            ParametersError::ProposalAlreadyExecuted,
        ),
        other != proposal_id && before.proposals@.contains_key(other)
            && before.proposals@[proposal_id].action is UpdateSigners
            && spec_voided_by_signer_change(before.proposals@[other]) ==> after.spec_execute(
            other,
            later,
        ) == Err::<(), ParametersError>(ParametersError::ProposalInvalidated),
{
}

} // verus!
