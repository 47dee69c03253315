use vstd::prelude::*;
use std::collections::HashMap;
use crate::Address;
use super::errors::ParametersError;
use super::types::{MultisigConfig, Proposal, ProtocolParameters};

verus! {

broadcast use vstd::std_specs::hash::group_hash_axioms;

/// Storage of the parameters contract.
pub struct ParametersContract {
    pub admin: Option<Address>,
    pub params: Option<ProtocolParameters>,
    pub reentrancy_locked: bool,
    pub version: u32,
    /// The active committee.
    pub multisig: Option<MultisigConfig>,
    /// A committee proposed by the admin, awaiting confirmation.
    pub pending_multisig: Option<MultisigConfig>,
    /// Next proposal id.
    pub proposal_count: u64,
    pub proposals: HashMap<u64, Proposal>,
    /// Ids of all proposals, in creation order.
    pub proposal_ids: Vec<u64>,
}

impl ParametersContract {
    /// Well-formedness: each proposal sits under its own id, below the
    /// counter, and is listed in the id index.
    pub open spec fn wf(self) -> bool {
        forall|k: u64|
            #![trigger self.proposals@[k]]
            self.proposals@.contains_key(k) ==> {
                &&& self.proposals@[k].id == k
                &&& k < self.proposal_count
                &&& self.proposal_ids@.contains(k)
            }
    }

    /// The storage of a freshly deployed, uninitialized contract.
    pub fn new() -> (c: Self)
        ensures
            c.wf(),
            c.admin is None,
            c.params is None,
            !c.reentrancy_locked,
            c.version == 1,
            c.multisig is None,
            c.pending_multisig is None,
            c.proposal_count == 0,
            c.proposals@ == Map::<u64, Proposal>::empty(),
            c.proposal_ids@ == Seq::<u64>::empty(),
    {
        ParametersContract {
            admin: None,
            params: None,
            reentrancy_locked: false,
            version: 1,
            multisig: None,
            pending_multisig: None,
            proposal_count: 0,
            proposals: HashMap::new(),
            proposal_ids: Vec::new(),
        }
    }

    /// The stored admin; `NotInitialized` before `initialize`.
    pub fn get_admin(&self) -> (r: Result<Address, ParametersError>)
        ensures
            r == match self.admin {
                Some(a) => Ok(a),
                None => Err(ParametersError::NotInitialized),
            },
    {
        match self.admin {
            Some(a) => Ok(a),
            None => Err(ParametersError::NotInitialized),
        }
    }

    /// The parameters in force; `NotInitialized` before `initialize`.
    pub fn get_parameters(&self) -> (r: Result<ProtocolParameters, ParametersError>)
        ensures
            r == match self.params {
                Some(p) => Ok(p),
                None => Err(ParametersError::NotInitialized),
            },
    {
        match self.params {
            Some(p) => Ok(p),
            None => Err(ParametersError::NotInitialized),
        }
    }

    /// The active committee; `MultisigNotConfigured` until one is confirmed.
    pub fn get_multisig(&self) -> (r: Result<&MultisigConfig, ParametersError>)
        ensures
            self.multisig is Some ==> r is Ok && *r->Ok_0 == self.multisig->Some_0,
            self.multisig is None ==> r == Err::<&MultisigConfig, ParametersError>(
                ParametersError::MultisigNotConfigured,
            ),
    {
        match &self.multisig {
            Some(c) => Ok(c),
            None => Err(ParametersError::MultisigNotConfigured),
        }
    }

    /// The proposal with id `proposal_id`; `ProposalNotFound` when absent.
    pub fn get_proposal(&self, proposal_id: u64) -> (r: Result<&Proposal, ParametersError>)
        ensures
            self.proposals@.contains_key(proposal_id) ==> r is Ok && *r->Ok_0 == self.proposals@[proposal_id],
            !self.proposals@.contains_key(proposal_id) ==> r == Err::<&Proposal, ParametersError>(
                ParametersError::ProposalNotFound,
            ),
    {
        match self.proposals.get(&proposal_id) {
            Some(p) => Ok(p),
            None => Err(ParametersError::ProposalNotFound),
        }
    }

    /// Contract version (1 until the first upgrade).
    pub fn get_version(&self) -> (r: u32)
        ensures
            r == self.version,
    {
        self.version
    }

    /// Moves the proposal counter forward to `count`. Returns false,
    /// changing nothing, for a count below the current one.
    pub fn restore_proposal_count(&mut self, count: u64) -> (accepted: bool)
        requires
            old(self).wf(),
        ensures
            final(self).wf(),
            accepted == (count >= old(self).proposal_count),
            accepted ==> final(self).proposal_count == count,
            !accepted ==> final(self).proposal_count == old(self).proposal_count,
            final(self).proposals@ == old(self).proposals@,
            final(self).proposal_ids@ == old(self).proposal_ids@,
    {
        if count < self.proposal_count {
            return false;
        }
        self.proposal_count = count;
        true
    }

    /// Replays a stored proposal: it is stored under its id, which joins the
    /// id index. Returns false, changing nothing, for an id already stored
    /// or not below the counter.
    pub fn restore_proposal(&mut self, p: Proposal) -> (accepted: bool)
        requires
            old(self).wf(),
        ensures
            final(self).wf(),
            accepted == (!old(self).proposals@.contains_key(p.id) && p.id < old(self).proposal_count),
            accepted ==> final(self).proposals@ == old(self).proposals@.insert(p.id, p)
                && final(self).proposal_ids@ == old(self).proposal_ids@.push(p.id),
            !accepted ==> final(self).proposals@ == old(self).proposals@
                && final(self).proposal_ids@ == old(self).proposal_ids@,
            final(self).proposal_count == old(self).proposal_count,
    {
        let id = p.id;
        if self.proposals.contains_key(&id) || id >= self.proposal_count {
            return false;
        }
        self.proposals.insert(id, p);
        self.proposal_ids.push(id);
        proof {
            assert forall|k: u64| #[trigger] self.proposals@.contains_key(k) implies {
                &&& self.proposals@[k].id == k
                &&& k < self.proposal_count
                &&& self.proposal_ids@.contains(k)
            } by {
                if k == id {
                    assert(self.proposal_ids@[self.proposal_ids@.len() - 1] == id);
                } else {
                    assert(old(self).proposals@.contains_key(k));
                    let i = choose|i: int|
                        0 <= i < old(self).proposal_ids@.len() && old(self).proposal_ids@[i] == k;
                    assert(self.proposal_ids@[i] == k);
                }
            }
        }
        true
    }
}

} // verus!
