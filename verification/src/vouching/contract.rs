use vstd::prelude::*;
use std::collections::HashMap;
use crate::{lemma_pair_key_injective, pair_key, spec_pair_key, Address};
use super::accounting::{
    clamped_removal, lemma_boost_sum_covers, lemma_boost_sum_push, lemma_boost_sum_same,
    lemma_boost_sum_update, spec_boost_sum, spec_clamped_removal, spec_contribution,
    spec_distinct,
};
use super::errors::VouchingError;
use super::safe_math::add_u32;
use super::types::{is_expired, spec_is_expired, VouchRecord};

verus! {

broadcast use vstd::std_specs::hash::group_hash_axioms;

/// Storage of the vouching contract.
pub struct VouchingContract {
    pub admin: Option<Address>,
    pub reputation_contract: Option<Address>,
    /// Boost each new vouch adds (set at initialization).
    pub vouch_boost: Option<u32>,
    pub reentrancy_locked: bool,
    pub version: u32,
    /// Mentor verification flags.
    pub mentors: HashMap<Address, bool>,
    /// Vouch records, keyed by `pair_key(mentor, learner)`.
    pub vouches: HashMap<u128, VouchRecord>,
    /// Mentors that ever vouched for each learner, in first-vouch order.
    pub learner_mentors: HashMap<Address, Vec<Address>>,
    /// Each learner's score before any of its active vouches.
    pub learner_baseline: HashMap<Address, u32>,
    /// Sum of the boosts of each learner's active vouches.
    pub learner_total_boost: HashMap<Address, u32>,
}

/// A record as readers see it at time `now`: an expired vouch shows as
/// inactive whatever storage says.
pub open spec fn spec_displayed(rec: VouchRecord, now: u64) -> VouchRecord {
    VouchRecord { active: rec.active && !spec_is_expired(rec.ts, now), ..rec }
}

impl VouchingContract {
    /// The mentors listed for `learner`.
    pub open spec fn mentors_of(self, learner: Address) -> Seq<Address> {
        if self.learner_mentors@.contains_key(learner) {
            self.learner_mentors@[learner]@
        } else {
            Seq::empty()
        }
    }

    /// The recorded aggregate boost of `learner` (0 when absent).
    pub open spec fn total_of(self, learner: Address) -> u32 {
        if self.learner_total_boost@.contains_key(learner) {
            self.learner_total_boost@[learner]
        } else {
            0
        }
    }

    /// The recorded baseline of `learner` (0 when absent).
    pub open spec fn baseline_of(self, learner: Address) -> u32 {
        if self.learner_baseline@.contains_key(learner) {
            self.learner_baseline@[learner]
        } else {
            0
        }
    }

    /// Whether a record exists for `mentor` and `learner`.
    pub open spec fn has_record(self, mentor: Address, learner: Address) -> bool {
        self.vouches@.contains_key(spec_pair_key(mentor, learner))
    }

    /// The record for `mentor` and `learner`.
    pub open spec fn record(self, mentor: Address, learner: Address) -> VouchRecord {
        self.vouches@[spec_pair_key(mentor, learner)]
    }

    /// Whether `mentor` is verified.
    pub open spec fn spec_is_mentor(self, mentor: Address) -> bool {
        self.mentors@.contains_key(mentor) && self.mentors@[mentor]
    }

    /// Well-formedness: records sit under their own key and their mentor is
    /// listed for their learner; the lists hold no repeats and only mentors
    /// with a record; and each learner's aggregate boost is the sum of the
    /// boosts of its active vouches.
    pub open spec fn wf(self) -> bool {
        &&& forall|k: u128|
            #![trigger self.vouches@[k]]
            self.vouches@.contains_key(k) ==> k == spec_pair_key(
                self.vouches@[k].mentor,
                self.vouches@[k].learner,
            ) && self.mentors_of(self.vouches@[k].learner).contains(self.vouches@[k].mentor)
        &&& forall|l: Address| #[trigger] spec_distinct(self.mentors_of(l))
        &&& forall|l: Address, i: int|
            0 <= i < self.mentors_of(l).len() ==> #[trigger] self.has_record(
                self.mentors_of(l)[i],
                l,
            )
        &&& forall|l: Address|
            #[trigger] self.total_of(l) == spec_boost_sum(self.vouches@, l, self.mentors_of(l))
    }

    /// Fields no vouch operation touches are unchanged.
    pub open spec fn settings_eq(self, o: Self) -> bool {
        &&& self.admin == o.admin
        &&& self.reputation_contract == o.reputation_contract
        &&& self.vouch_boost == o.vouch_boost
        &&& self.reentrancy_locked == o.reentrancy_locked
        &&& self.version == o.version
        &&& self.mentors@ == o.mentors@
    }

    /// Every check `vouch` performs, in order; on success the boost to add.
    pub open spec fn spec_vouch(self, mentor: Address, learner: Address) -> Result<
        u32,
        VouchingError,
    > {
        if !self.spec_is_mentor(mentor) {
            Err(VouchingError::MentorNotVerified)
        } else if self.has_record(mentor, learner) && self.record(mentor, learner).active {
            Err(VouchingError::VouchAlreadyActive)
        } else if self.reentrancy_locked {
            Err(VouchingError::ReentrancyDetected)
        } else if self.vouch_boost is None {
            Err(VouchingError::NotInitialized)
        } else if self.total_of(learner) + self.vouch_boost->Some_0 > u32::MAX {
            Err(VouchingError::Overflow)
        } else {
            Ok(self.vouch_boost->Some_0)
        }
    }

    /// Every check `revoke_vouch` performs before ending the vouch.
    pub open spec fn spec_revoke(self, mentor: Address, learner: Address) -> Result<
        (),
        VouchingError,
    > {
        if !self.has_record(mentor, learner) {
            Err(VouchingError::VouchNotFound)
        } else if !self.record(mentor, learner).active {
            Err(VouchingError::VouchNotActive)
        } else if self.reentrancy_locked {
            Err(VouchingError::ReentrancyDetected)
        } else {
            Ok(())
        }
    }

    /// Every check `expire_vouch` performs: `Ok(true)` when the vouch ends
    /// now, `Ok(false)` when it already ended (nothing to do).
    pub open spec fn spec_expire(self, mentor: Address, learner: Address, now: u64) -> Result<
        bool,
        VouchingError,
    > {
        if !self.has_record(mentor, learner) {
            Err(VouchingError::VouchNotFound)
        } else if !self.record(mentor, learner).active {
            Ok(false)
        } else if !spec_is_expired(self.record(mentor, learner).ts, now) {
            Err(VouchingError::VouchNotExpired)
        } else if self.reentrancy_locked {
            Err(VouchingError::ReentrancyDetected)
        } else {
            Ok(true)
        }
    }

    /// How ending the active vouch of `mentor` for `learner` leaves the
    /// storage when the learner's live score is `current`: the record turns
    /// inactive, its boost leaves the aggregate (the baseline is dropped once
    /// no boost is left), and `removed` is the clamped boost to take back.
    pub open spec fn ended(
        old: Self,
        new: Self,
        mentor: Address,
        learner: Address,
        current: u32,
        removed: u32,
    ) -> bool {
        let rec = old.record(mentor, learner);
        let left = old.total_of(learner) - rec.boost_amount;
        &&& removed == spec_clamped_removal(current, old.baseline_of(learner), rec.boost_amount)
        &&& new.vouches@ == old.vouches@.insert(
            spec_pair_key(mentor, learner),
            VouchRecord { active: false, ..rec },
        )
        &&& new.learner_total_boost@ == old.learner_total_boost@.insert(learner, left as u32)
        &&& new.learner_baseline@ == if left == 0 {
            old.learner_baseline@.remove(learner)
        } else {
            old.learner_baseline@
        }
        &&& new.learner_mentors@ == old.learner_mentors@
        &&& new.settings_eq(old)
    }

    /// The version after an upgrade from `v`: one more, saturating.
    pub open spec fn spec_next_version(v: u32) -> u32 {
        if v < u32::MAX {
            (v + 1) as u32
        } else {
            v
        }
    }

    /// A freshly deployed contract: nothing configured, version 1.
    pub fn new() -> (c: Self)
        ensures
            c.wf(),
            c.admin is None,
            c.reputation_contract is None,
            c.vouch_boost is None,
            !c.reentrancy_locked,
            c.version == 1,
            c.mentors@ == Map::<Address, bool>::empty(),
            c.vouches@ == Map::<u128, VouchRecord>::empty(),
            c.learner_mentors@ == Map::<Address, Vec<Address>>::empty(),
            c.learner_baseline@ == Map::<Address, u32>::empty(),
            c.learner_total_boost@ == Map::<Address, u32>::empty(),
    {
        VouchingContract {
            admin: None,
            reputation_contract: None,
            vouch_boost: None,
            reentrancy_locked: false,
            version: 1,
            mentors: HashMap::new(),
            vouches: HashMap::new(),
            learner_mentors: HashMap::new(),
            learner_baseline: HashMap::new(),
            learner_total_boost: HashMap::new(),
        }
    }

    /// One-time setup (the admin authorizes): the admin, the reputation
    /// contract to boost, and the boost per vouch, which must be positive.
    pub fn initialize(&mut self, admin: Address, reputation_contract: Address, vouch_boost: u32) -> (r:
        Result<(), VouchingError>)
        requires
            old(self).wf(),
        ensures
            final(self).wf(),
            r is Ok <==> old(self).admin is None && vouch_boost > 0,
            r is Err ==> *final(self) == *old(self) && r->Err_0 == (if old(self).admin is Some {
                VouchingError::AlreadyInitialized
            } else {
                VouchingError::InvalidBoost
            }),
            r is Ok ==> *final(self) == (VouchingContract {
                admin: Some(admin),
                reputation_contract: Some(reputation_contract),
                vouch_boost: Some(vouch_boost),
                ..*old(self)
            }),
    {
        if self.admin.is_some() {
            return Err(VouchingError::AlreadyInitialized);
        }
        if vouch_boost == 0 {
            return Err(VouchingError::InvalidBoost);
        }
        let ghost before = *self;
        self.admin = Some(admin);
        self.reputation_contract = Some(reputation_contract);
        self.vouch_boost = Some(vouch_boost);
        proof {
            self.lemma_wf_frame(before);
        }
        Ok(())
    }

    /// The admin; `NotInitialized` before `initialize`.
    pub fn get_admin(&self) -> (r: Result<Address, VouchingError>)
        ensures
            r == match self.admin {
                Some(a) => Ok(a),
                None => Err(VouchingError::NotInitialized),
            },
    {
        match self.admin {
            Some(a) => Ok(a),
            None => Err(VouchingError::NotInitialized),
        }
    }

    /// Contract version (1 until the first upgrade).
    pub fn get_version(&self) -> (r: u32)
        ensures
            r == self.version,
    {
        self.version
    }

    /// Whether `mentor` is verified.
    pub fn is_mentor(&self, mentor: Address) -> (r: bool)
        ensures
            r == self.spec_is_mentor(mentor),
    {
        match self.mentors.get(&mentor) {
            Some(v) => *v,
            None => false,
        }
    }

    /// Verifies (or unverifies) `mentor`; `admin` must be the stored admin.
    pub fn set_mentor(&mut self, admin: Address, mentor: Address, verified: bool) -> (r: Result<
        (),
        VouchingError,
    >)
        requires
            old(self).wf(),
        ensures
            final(self).wf(),
            r is Ok <==> old(self).admin == Some(admin) && !old(self).reentrancy_locked,
            r is Err ==> *final(self) == *old(self) && r->Err_0 == (if old(self).admin is None {
                VouchingError::NotInitialized
            } else if old(self).admin != Some(admin) {
                VouchingError::NotAdmin
            } else {
                VouchingError::ReentrancyDetected
            }),
            r is Ok ==> *final(self) == (VouchingContract { mentors: final(self).mentors, ..*old(self) })
                && final(self).mentors@ == old(self).mentors@.insert(mentor, verified),
    {
        let stored = self.get_admin()?;
        if stored != admin {
            return Err(VouchingError::NotAdmin);
        }
        if self.reentrancy_locked {
            return Err(VouchingError::ReentrancyDetected);
        }
        let ghost before = *self;
        self.mentors.insert(mentor, verified);
        proof {
            self.lemma_wf_frame(before);
        }
        Ok(())
    }

    /// The aggregate boost of `learner`.
    fn total_boost(&self, learner: Address) -> (r: u32)
        ensures
            r == self.total_of(learner),
    {
        match self.learner_total_boost.get(&learner) {
            Some(t) => *t,
            None => 0,
        }
    }

    /// The baseline of `learner`.
    fn baseline(&self, learner: Address) -> (r: u32)
        ensures
            r == self.baseline_of(learner),
    {
        match self.learner_baseline.get(&learner) {
            Some(b) => *b,
            None => 0,
        }
    }

    /// `mentor` vouches for `learner` at time `now` (the mentor authorizes);
    /// `learner_score` is the learner's live score before the boost. The
    /// first active vouch of a learner records that score as its baseline.
    /// Returns the boost the caller adds to the learner's reputation.
    pub fn vouch(&mut self, mentor: Address, learner: Address, now: u64, learner_score: u32) -> (r:
        Result<u32, VouchingError>)
        requires
            old(self).wf(),
        ensures
            final(self).wf(),
            r == old(self).spec_vouch(mentor, learner),
            r is Err ==> *final(self) == *old(self),
            r is Ok ==> {
                let boost = r->Ok_0;
                &&& final(self).vouches@ == old(self).vouches@.insert(
                    spec_pair_key(mentor, learner),
                    VouchRecord { mentor, learner, ts: now, boost_amount: boost, active: true },
                )
                &&& final(self).learner_total_boost@ == old(self).learner_total_boost@.insert(
                    learner,
                    (old(self).total_of(learner) + boost) as u32,
                )
                &&& final(self).learner_baseline@ == if old(self).total_of(learner) == 0 {
                    old(self).learner_baseline@.insert(learner, learner_score)
                } else {
                    old(self).learner_baseline@
                }
                &&& final(self).mentors_of(learner) == if old(self).has_record(mentor, learner) {
                    old(self).mentors_of(learner)
                } else {
                    old(self).mentors_of(learner).push(mentor)
                }
                &&& forall|l: Address|
                    l != learner ==> #[trigger] final(self).mentors_of(l) == old(self).mentors_of(l)
                &&& final(self).settings_eq(*old(self))
            },
    {
        if !self.is_mentor(mentor) {
            return Err(VouchingError::MentorNotVerified);
        }
        let k = pair_key(mentor, learner);
        let existing: Option<bool> = match self.vouches.get(&k) {
            Some(rec) => Some(rec.active),
            None => None,
        };
        if existing == Some(true) {
            return Err(VouchingError::VouchAlreadyActive);
        }
        if self.reentrancy_locked {
            return Err(VouchingError::ReentrancyDetected);
        }
        let boost = match self.vouch_boost {
            Some(b) => b,
            None => {
                return Err(VouchingError::NotInitialized);
            },
        };
        let total = self.total_boost(learner);
        let new_total = add_u32(total, boost)?;
        let ghost old_self = *self;
        let ghost old_vouches = self.vouches@;
        let ghost old_list = self.mentors_of(learner);
        if total == 0 {
            self.learner_baseline.insert(learner, learner_score);
        }
        self.learner_total_boost.insert(learner, new_total);
        let rec = VouchRecord { mentor, learner, ts: now, boost_amount: boost, active: true };
        self.vouches.insert(k, rec);
        if existing.is_none() {
            let mut list = match self.learner_mentors.remove(&learner) {
                Some(v) => v,
                None => Vec::new(),
            };
            list.push(mentor);
            self.learner_mentors.insert(learner, list);
        }
        proof {
            assert(self.mentors_of(learner) == if old_self.has_record(mentor, learner) {
                old_list
            } else {
                old_list.push(mentor)
            });
            assert forall|l: Address| l != learner implies #[trigger] self.mentors_of(l)
                == old_self.mentors_of(l) by {}
            assert forall|l: Address| l != learner implies #[trigger] self.total_of(l)
                == old_self.total_of(l) by {}
            self.lemma_vouch_keeps_wf(old_self, mentor, learner, rec);
        }
        Ok(boost)
    }

    /// Replays a stored vouch record: the record is stored, its mentor
    /// appended to its learner's list, and an active record's boost added to
    /// the learner's aggregate. Records replayed in list order rebuild the
    /// lists they were stored with. Returns false, changing nothing, for a
    /// pair that already has a record or an aggregate that would overflow.
    pub fn restore_vouch(&mut self, rec: VouchRecord) -> (accepted: bool)
        requires
            old(self).wf(),
        ensures
            final(self).wf(),
            accepted == (!old(self).has_record(rec.mentor, rec.learner) && (rec.active ==> old(
                self).total_of(rec.learner) + rec.boost_amount <= u32::MAX)),
            !accepted ==> *final(self) == *old(self),
            accepted ==> {
                &&& final(self).vouches@ == old(self).vouches@.insert(
                    spec_pair_key(rec.mentor, rec.learner),
                    rec,
                )
                &&& final(self).mentors_of(rec.learner) == old(self).mentors_of(rec.learner).push(
                    rec.mentor,
                )
                &&& forall|l: Address|
                    l != rec.learner ==> #[trigger] final(self).mentors_of(l) == old(self).mentors_of(l)
                &&& final(self).total_of(rec.learner) == old(self).total_of(rec.learner) + if rec.active {
                    rec.boost_amount as int
                } else {
                    0
                }
                &&& forall|l: Address|
                    l != rec.learner ==> #[trigger] final(self).total_of(l) == old(self).total_of(l)
                &&& final(self).learner_baseline@ == old(self).learner_baseline@
                &&& final(self).settings_eq(*old(self))
            },
    {
        let mentor = rec.mentor;
        let learner = rec.learner;
        let k = pair_key(mentor, learner);
        if self.vouches.contains_key(&k) {
            return false;
        }
        let total = self.total_boost(learner);
        let mut new_total = total;
        if rec.active {
            match total.checked_add(rec.boost_amount) {
                Some(t) => {
                    new_total = t;
                },
                None => {
                    return false;
                },
            }
        }
        let ghost old_self = *self;
        let ghost old_list = self.mentors_of(learner);
        if rec.active {
            self.learner_total_boost.insert(learner, new_total);
        }
        self.vouches.insert(k, rec);
        let mut list = match self.learner_mentors.remove(&learner) {
            Some(v) => v,
            None => Vec::new(),
        };
        list.push(mentor);
        self.learner_mentors.insert(learner, list);
        proof {
            assert(self.mentors_of(learner) == old_list.push(mentor));
            assert forall|l: Address| l != learner implies #[trigger] self.mentors_of(l)
                == old_self.mentors_of(l) by {}
            assert forall|l: Address| l != learner implies #[trigger] self.total_of(l)
                == old_self.total_of(l) by {}
            self.lemma_vouch_keeps_wf(old_self, mentor, learner, rec);
        }
        true
    }

    /// Ends the active vouch of `mentor` for `learner` (see `ended`) and
    /// returns the clamped boost to take back.
    fn end_vouch(&mut self, mentor: Address, learner: Address, current: u32) -> (removed: u32)
        requires
            old(self).wf(),
            old(self).has_record(mentor, learner),
            old(self).record(mentor, learner).active,
        ensures
            final(self).wf(),
            Self::ended(*old(self), *final(self), mentor, learner, current, removed),
            old(self).record(mentor, learner).boost_amount <= old(self).total_of(learner),
    {
        let ghost old_self = *self;
        let k = pair_key(mentor, learner);
        let rec = *self.vouches.get(&k).unwrap();
        proof {
            let r = old_self.vouches@[k];
            lemma_pair_key_injective(r.mentor, r.learner, mentor, learner);
            assert(r.mentor == mentor && r.learner == learner);
            assert(old_self.mentors_of(learner).contains(mentor));
            let i = choose|i: int|
                0 <= i < old_self.mentors_of(learner).len() && old_self.mentors_of(learner)[i]
                    == mentor;
            lemma_boost_sum_covers(old_self.vouches@, learner, old_self.mentors_of(learner), i);
            assert(old_self.total_of(learner) == spec_boost_sum(
                old_self.vouches@,
                learner,
                old_self.mentors_of(learner),
            ));
        }
        let baseline = self.baseline(learner);
        let removed = clamped_removal(current, baseline, rec.boost_amount);
        let total = self.total_boost(learner);
        let left = total - rec.boost_amount;
        self.learner_total_boost.insert(learner, left);
        if left == 0 {
            self.learner_baseline.remove(&learner);
        }
        let ended = VouchRecord { active: false, ..rec };
        self.vouches.insert(k, ended);
        proof {
            self.lemma_end_keeps_wf(old_self, mentor, learner, ended);
        }
        removed
    }

    /// `wf` survives ending a vouch.
    proof fn lemma_end_keeps_wf(self, old: Self, mentor: Address, learner: Address, ended: VouchRecord)
        requires
            old.wf(),
            old.has_record(mentor, learner),
            old.record(mentor, learner).active,
            old.record(mentor, learner).mentor == mentor,
            old.record(mentor, learner).learner == learner,
            old.record(mentor, learner).boost_amount <= old.total_of(learner),
            ended == (VouchRecord { active: false, ..old.record(mentor, learner) }),
            self.vouches@ == old.vouches@.insert(spec_pair_key(mentor, learner), ended),
            self.learner_total_boost@ == old.learner_total_boost@.insert(
                learner,
                (old.total_of(learner) - old.record(mentor, learner).boost_amount) as u32,
            ),
            self.learner_mentors@ == old.learner_mentors@,
        ensures
            self.wf(),
    {
        let k0 = spec_pair_key(mentor, learner);
        assert forall|l: Address| #[trigger] self.mentors_of(l) == old.mentors_of(l) by {}
        assert forall|l: Address, m: Address| (m != mentor || l != learner) implies #[trigger]
            spec_contribution(self.vouches@, m, l) == spec_contribution(old.vouches@, m, l) by {
            lemma_pair_key_injective(m, l, mentor, learner);
        }
        assert(old.mentors_of(learner).contains(mentor)) by {
            assert(old.vouches@[k0].mentor == mentor);
        }
        assert forall|k: u128| #[trigger] self.vouches@.contains_key(k) implies k == spec_pair_key(
            self.vouches@[k].mentor,
            self.vouches@[k].learner,
        ) && self.mentors_of(self.vouches@[k].learner).contains(self.vouches@[k].mentor) by {
            if k != k0 {
                assert(old.vouches@[k] == self.vouches@[k]);
            }
        }
        assert forall|l: Address| #[trigger] spec_distinct(self.mentors_of(l)) by {
            assert(spec_distinct(old.mentors_of(l)));
        }
        assert forall|l: Address, i: int| 0 <= i < self.mentors_of(l).len() implies #[trigger]
            self.has_record(self.mentors_of(l)[i], l) by {
            assert(old.has_record(old.mentors_of(l)[i], l));
        }
        assert forall|l: Address| #[trigger]
            self.total_of(l) == spec_boost_sum(self.vouches@, l, self.mentors_of(l)) by {
            assert(old.total_of(l) == spec_boost_sum(old.vouches@, l, old.mentors_of(l)));
            if l == learner {
                assert(spec_distinct(old.mentors_of(learner)));
                lemma_boost_sum_update(old.vouches@, self.vouches@, learner, old.mentors_of(learner), mentor);
            } else {
                lemma_boost_sum_same(old.vouches@, self.vouches@, l, old.mentors_of(l));
            }
        }
    }

    /// `mentor` revokes its vouch for `learner` (the mentor authorizes);
    /// `current_score` is the learner's live score. Returns the clamped boost
    /// the caller takes back from the learner's reputation.
    pub fn revoke_vouch(&mut self, mentor: Address, learner: Address, current_score: u32) -> (r:
        Result<u32, VouchingError>)
        requires
            old(self).wf(),
        ensures
            final(self).wf(),
            r is Ok <==> old(self).spec_revoke(mentor, learner) is Ok,
            r is Err ==> r->Err_0 == old(self).spec_revoke(mentor, learner)->Err_0 && *final(self)
                == *old(self),
            r is Ok ==> Self::ended(*old(self), *final(self), mentor, learner, current_score, r->Ok_0),
    {
        let k = pair_key(mentor, learner);
        let active = match self.vouches.get(&k) {
            Some(rec) => rec.active,
            None => {
                return Err(VouchingError::VouchNotFound);
            },
        };
        if !active {
            return Err(VouchingError::VouchNotActive);
        }
        if self.reentrancy_locked {
            return Err(VouchingError::ReentrancyDetected);
        }
        Ok(self.end_vouch(mentor, learner, current_score))
    }

    /// Ends a vouch whose time is up; anyone may call it. `current_score` is
    /// the learner's live score. A vouch that already ended is left alone
    /// (`Ok(0)`), even before its expiry. Returns the clamped boost the
    /// caller takes back from the learner's reputation.
    pub fn expire_vouch(
        &mut self,
        mentor: Address,
        learner: Address,
        now: u64,
        current_score: u32,
    ) -> (r: Result<u32, VouchingError>)
        requires
            old(self).wf(),
        ensures
            final(self).wf(),
            ({
                let c = old(self).spec_expire(mentor, learner, now);
                &&& r is Ok <==> c is Ok
                &&& r is Err ==> r->Err_0 == c->Err_0 && *final(self) == *old(self)
                &&& c == Ok::<bool, VouchingError>(false) ==> r == Ok::<u32, VouchingError>(0)
                    && *final(self) == *old(self)
                &&& c == Ok::<bool, VouchingError>(true) ==> Self::ended(
                    *old(self),
                    *final(self),
                    mentor,
                    learner,
                    current_score,
                    r->Ok_0,
                )
            }),
    {
        let k = pair_key(mentor, learner);
        let (active, ts) = match self.vouches.get(&k) {
            Some(rec) => (rec.active, rec.ts),
            None => {
                return Err(VouchingError::VouchNotFound);
            },
        };
        if !active {
            return Ok(0);
        }
        if !is_expired(ts, now) {
            return Err(VouchingError::VouchNotExpired);
        }
        if self.reentrancy_locked {
            return Err(VouchingError::ReentrancyDetected);
        }
        Ok(self.end_vouch(mentor, learner, current_score))
    }

    /// The vouches for `learner`, in first-vouch order, as readers see them
    /// at time `now`: an expired vouch shows as inactive.
    pub fn get_vouches(&self, learner: Address, now: u64) -> (r: Vec<VouchRecord>)
        requires
            self.wf(),
        ensures
            r@.len() == self.mentors_of(learner).len(),
            forall|i: int|
                0 <= i < r@.len() ==> #[trigger] r@[i] == spec_displayed(
                    self.record(self.mentors_of(learner)[i], learner),
                    now,
                ),
    {
        let mut out: Vec<VouchRecord> = Vec::new();
        match self.learner_mentors.get(&learner) {
            None => {},
            Some(list) => {
                let n = list.len();
                let mut i: usize = 0;
                while i < n
                    invariant
                        self.wf(),
                        n == list@.len(),
                        list@ == self.mentors_of(learner),
                        0 <= i <= n,
                        out@.len() == i,
                        forall|j: int|
                            0 <= j < i ==> #[trigger] out@[j] == spec_displayed(
                                self.record(list@[j], learner),
                                now,
                            ),
                    decreases n - i,
                {
                    let m = list[i];
                    let k = pair_key(m, learner);
                    proof {
                        assert(self.has_record(self.mentors_of(learner)[i as int], learner));
                    }
                    let rec = *self.vouches.get(&k).unwrap();
                    let mut shown = rec;
                    if rec.active && is_expired(rec.ts, now) {
                        shown.active = false;
                    }
                    out.push(shown);
                    i = i + 1;
                }
            },
        }
        out
    }

    /// Records a code upgrade (the admin authorizes; the caller installs the
    /// code) and returns `(old_version, new_version)`.
    pub fn upgrade(&mut self) -> (r: Result<(u32, u32), VouchingError>)
        requires
            old(self).wf(),
        ensures
            final(self).wf(),
            r is Ok <==> old(self).admin is Some && !old(self).reentrancy_locked,
            r is Err ==> *final(self) == *old(self) && r->Err_0 == (if old(self).admin is None {
                VouchingError::NotInitialized
            } else {
                VouchingError::ReentrancyDetected
            }),
            r is Ok ==> r->Ok_0 == (old(self).version, Self::spec_next_version(old(self).version))
                && *final(self) == (VouchingContract {
                version: Self::spec_next_version(old(self).version),
                ..*old(self)
            }),
    {
        let _admin = self.get_admin()?;
        if self.reentrancy_locked {
            return Err(VouchingError::ReentrancyDetected);
        }
        let ghost before = *self;
        let old_version = self.version;
        let new_version = if old_version < u32::MAX {
            old_version + 1
        } else {
            old_version
        };
        self.version = new_version;
        proof {
            self.lemma_wf_frame(before);
        }
        Ok((old_version, new_version))
    }

    /// `wf` only looks at the vouch table, the mentor lists and the
    /// aggregates.
    proof fn lemma_wf_frame(self, old: Self)
        requires
            old.wf(),
            self.vouches@ == old.vouches@,
            self.learner_mentors@ == old.learner_mentors@,
            self.learner_total_boost@ == old.learner_total_boost@,
        ensures
            self.wf(),
    {
        assert forall|l: Address| #[trigger] self.mentors_of(l) == old.mentors_of(l) by {}
        assert forall|l: Address| #[trigger] self.total_of(l) == old.total_of(l) by {}
        assert forall|l: Address| #[trigger] spec_distinct(self.mentors_of(l)) by {
            assert(spec_distinct(old.mentors_of(l)));
        }
        assert forall|l: Address, i: int| 0 <= i < self.mentors_of(l).len() implies #[trigger]
            self.has_record(self.mentors_of(l)[i], l) by {
            assert(old.has_record(old.mentors_of(l)[i], l));
        }
        assert forall|l: Address| #[trigger]
            self.total_of(l) == spec_boost_sum(self.vouches@, l, self.mentors_of(l)) by {
            assert(old.total_of(l) == spec_boost_sum(old.vouches@, l, old.mentors_of(l)));
        }
        assert forall|k: u128| #[trigger] self.vouches@.contains_key(k) implies k == spec_pair_key(
            self.vouches@[k].mentor,
            self.vouches@[k].learner,
        ) && self.mentors_of(self.vouches@[k].learner).contains(self.vouches@[k].mentor) by {
            assert(old.vouches@[k] == self.vouches@[k]);
        }
    }

    /// `wf` survives storing a record for a pair without an active one, the
    /// mentor listed and the learner's aggregate moved by the new record's
    /// contribution.
    proof fn lemma_vouch_keeps_wf(self, old: Self, mentor: Address, learner: Address, rec: VouchRecord)
        requires
            old.wf(),
            rec.mentor == mentor,
            rec.learner == learner,
            !(old.has_record(mentor, learner) && old.record(mentor, learner).active),
            self.vouches@ == old.vouches@.insert(spec_pair_key(mentor, learner), rec),
            self.total_of(learner) == old.total_of(learner) + if rec.active {
                rec.boost_amount as int
            } else {
                0
            },
            forall|l: Address| l != learner ==> #[trigger] self.total_of(l) == old.total_of(l),
            self.mentors_of(learner) == if old.has_record(mentor, learner) {
                old.mentors_of(learner)
            } else {
                old.mentors_of(learner).push(mentor)
            },
            forall|l: Address| l != learner ==> #[trigger] self.mentors_of(l) == old.mentors_of(l),
        ensures
            self.wf(),
    {
        let k0 = spec_pair_key(mentor, learner);
        let had = old.has_record(mentor, learner);
        assert forall|l: Address, m: Address| (m != mentor || l != learner) implies #[trigger]
            spec_contribution(self.vouches@, m, l) == spec_contribution(old.vouches@, m, l) by {
            lemma_pair_key_injective(m, l, mentor, learner);
        }
        if !had {
            assert(!old.mentors_of(learner).contains(mentor)) by {
                if old.mentors_of(learner).contains(mentor) {
                    let i = choose|i: int|
                        0 <= i < old.mentors_of(learner).len() && old.mentors_of(learner)[i]
                            == mentor;
                    assert(old.has_record(old.mentors_of(learner)[i], learner));
                }
            }
        }
        assert forall|k: u128| #[trigger] self.vouches@.contains_key(k) implies k == spec_pair_key(
            self.vouches@[k].mentor,
            self.vouches@[k].learner,
        ) && self.mentors_of(self.vouches@[k].learner).contains(self.vouches@[k].mentor) by {
            if k == k0 {
                if !had {
                    assert(self.mentors_of(learner)[old.mentors_of(learner).len() as int] == mentor);
                }
            } else {
                let r = old.vouches@[k];
                assert(old.mentors_of(r.learner).contains(r.mentor));
                if r.learner == learner {
                    if !had {
                        let i = choose|i: int|
                            0 <= i < old.mentors_of(learner).len() && old.mentors_of(learner)[i]
                                == r.mentor;
                        assert(self.mentors_of(learner)[i] == r.mentor);
                    }
                }
            }
        }
        assert forall|l: Address| #[trigger] spec_distinct(self.mentors_of(l)) by {
            assert(spec_distinct(old.mentors_of(l)));
        }
        assert forall|l: Address, i: int| 0 <= i < self.mentors_of(l).len() implies #[trigger]
            self.has_record(self.mentors_of(l)[i], l) by {
            if l == learner && !had && i == old.mentors_of(learner).len() {
            } else {
                assert(old.has_record(old.mentors_of(l)[i], l));
            }
        }
        assert forall|l: Address| #[trigger]
            self.total_of(l) == spec_boost_sum(self.vouches@, l, self.mentors_of(l)) by {
            assert(old.total_of(l) == spec_boost_sum(old.vouches@, l, old.mentors_of(l)));
            if l == learner {
                assert(spec_distinct(old.mentors_of(learner)));
                lemma_boost_sum_update(old.vouches@, self.vouches@, learner, old.mentors_of(learner), mentor);
                if !had {
                    lemma_boost_sum_push(self.vouches@, learner, old.mentors_of(learner), mentor);
                } else {
                    let i = choose|i: int|
                        0 <= i < old.mentors_of(learner).len() && old.mentors_of(learner)[i]
                            == mentor;
                    assert(old.mentors_of(learner).contains(mentor)) by {
                        assert(old.vouches@.contains_key(k0));
                        assert(old.vouches@[k0].mentor == mentor && old.vouches@[k0].learner == learner) by {
                            lemma_pair_key_injective(old.vouches@[k0].mentor, old.vouches@[k0].learner, mentor, learner);
                        }
                    }
                }
            } else {
                lemma_boost_sum_same(old.vouches@, self.vouches@, l, old.mentors_of(l));
            }
        }
    }
}

/// While no penalty has eaten into a learner's boosts (its live score is at
/// least its baseline plus its aggregate boost), ending any of its active
/// vouches takes back exactly that vouch's boost, and the same then holds
/// for the vouches that remain.
pub proof fn lemma_exact_removal_without_penalty(
    c: VouchingContract,
    mentor: Address,
    learner: Address,
    current: u32,
)
    requires
        c.wf(),
        c.has_record(mentor, learner),
        c.record(mentor, learner).active,
        current >= c.baseline_of(learner) + c.total_of(learner),
    ensures
        spec_clamped_removal(current, c.baseline_of(learner), c.record(mentor, learner).boost_amount)
            == c.record(mentor, learner).boost_amount,
        current - c.record(mentor, learner).boost_amount >= c.baseline_of(learner) + (
        c.total_of(learner) - c.record(mentor, learner).boost_amount),
{
    let k = spec_pair_key(mentor, learner);
    let r = c.vouches@[k];
    lemma_pair_key_injective(r.mentor, r.learner, mentor, learner);
    assert(c.mentors_of(learner).contains(mentor));
    let i = choose|i: int| 0 <= i < c.mentors_of(learner).len() && c.mentors_of(learner)[i] == mentor;
    lemma_boost_sum_covers(c.vouches@, learner, c.mentors_of(learner), i);
    assert(c.total_of(learner) == spec_boost_sum(c.vouches@, learner, c.mentors_of(learner)));
}

} // verus!
