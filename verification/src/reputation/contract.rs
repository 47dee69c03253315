use vstd::prelude::*;
use std::collections::{HashMap, HashSet};
use crate::Address;
use super::errors::ReputationError;
use super::safe_math::{add_u32, sub_u32};
use super::types::MAX_SCORE;

verus! {

broadcast use vstd::std_specs::hash::group_hash_axioms;

/// Storage of the reputation contract.
pub struct ReputationContract {
    pub admin: Option<Address>,
    /// Stored scores; a user without an entry has score 0.
    pub scores: HashMap<Address, u32>,
    /// Addresses allowed to change scores.
    pub updaters: HashSet<Address>,
    pub reentrancy_locked: bool,
}

impl ReputationContract {
    /// Every stored score lies within `0..=MAX_SCORE`.
    pub open spec fn wf(self) -> bool {
        forall|u: Address| #[trigger] self.scores@.contains_key(u) ==> self.scores@[u] <= MAX_SCORE
    }

    /// The score of `user` in a score table (0 when absent).
    pub open spec fn score_in(scores: Map<Address, u32>, user: Address) -> u32 {
        if scores.contains_key(user) {
            scores[user]
        } else {
            0
        }
    }

    /// The score of `user` (0 when never set).
    pub open spec fn score_of(self, user: Address) -> u32 {
        Self::score_in(self.scores@, user)
    }

    /// Outcome of raising `user`'s score by `amount`: the new score, or why
    /// it is refused.
    pub open spec fn spec_raise(self, updater: Address, user: Address, amount: u32) -> Result<
        u32,
        ReputationError,
    > {
        if !self.updaters@.contains(updater) {
            Err(ReputationError::NotUpdater)
        } else if self.reentrancy_locked {
            Err(ReputationError::ReentrancyDetected)
        } else if self.score_of(user) + amount > MAX_SCORE {
            Err(ReputationError::Overflow)
        } else {
            Ok((self.score_of(user) + amount) as u32)
        }
    }

    /// Outcome of lowering `user`'s score by `amount`.
    pub open spec fn spec_lower(self, updater: Address, user: Address, amount: u32) -> Result<
        u32,
        ReputationError,
    > {
        if !self.updaters@.contains(updater) {
            Err(ReputationError::NotUpdater)
        } else if self.reentrancy_locked {
            Err(ReputationError::ReentrancyDetected)
        } else if amount > self.score_of(user) {
            Err(ReputationError::Underflow)
        } else {
            Ok((self.score_of(user) - amount) as u32)
        }
    }

    /// Outcome of setting `user`'s score to `new_score`.
    pub open spec fn spec_set(self, updater: Address, new_score: u32) -> Result<
        u32,
        ReputationError,
    > {
        if !self.updaters@.contains(updater) {
            Err(ReputationError::NotUpdater)
        } else if new_score > MAX_SCORE {
            Err(ReputationError::OutOfBounds)
        } else if self.reentrancy_locked {
            Err(ReputationError::ReentrancyDetected)
        } else {
            Ok(new_score)
        }
    }

    /// How a score-changing call leaves the storage: on `Ok(s)` the user's
    /// score becomes `s` and nothing else changes; on `Err` nothing changes.
    pub open spec fn score_update(
        old: Self,
        new: Self,
        user: Address,
        outcome: Result<u32, ReputationError>,
        r: Result<(), ReputationError>,
    ) -> bool {
        &&& r is Ok <==> outcome is Ok
        &&& r is Err ==> r->Err_0 == outcome->Err_0 && new == old
        &&& r is Ok ==> new == (ReputationContract { scores: new.scores, ..old })
            && new.scores@ == old.scores@.insert(user, outcome->Ok_0)
    }

    /// A freshly deployed contract: no admin, no scores, no updaters.
    pub fn new() -> (c: Self)
        ensures
            c.wf(),
            c.admin is None,
            c.scores@ == Map::<Address, u32>::empty(),
            c.updaters@ == Set::<Address>::empty(),
            !c.reentrancy_locked,
    {
        ReputationContract {
            admin: None,
            scores: HashMap::new(),
            updaters: HashSet::new(),
            reentrancy_locked: false,
        }
    }

    /// Replays a stored score. Returns false, changing nothing, for a score
    /// above `MAX_SCORE`.
    pub fn restore_score(&mut self, user: Address, score: u32) -> (accepted: bool)
        requires
            old(self).wf(),
        ensures
            final(self).wf(),
            accepted == (score <= MAX_SCORE),
            accepted ==> final(self).scores@ == old(self).scores@.insert(user, score),
            !accepted ==> final(self).scores@ == old(self).scores@,
            final(self).admin == old(self).admin,
            final(self).updaters@ == old(self).updaters@,
            final(self).reentrancy_locked == old(self).reentrancy_locked,
    {
        if score > MAX_SCORE {
            return false;
        }
        self.scores.insert(user, score);
        true
    }

    /// Contract version tag.
    pub fn get_version() -> (r: &'static str)
        ensures
            r@ == "v1_0_0"@,
    {
        "v1_0_0"
    }

    /// The score of `user` (0 when never set).
    pub fn get_score(&self, user: Address) -> (r: u32)
        ensures
            r == self.score_of(user),
    {
        match self.scores.get(&user) {
            Some(s) => *s,
            None => 0,
        }
    }

    /// Whether `addr` may change scores.
    pub fn is_updater(&self, addr: Address) -> (r: bool)
        ensures
            r == self.updaters@.contains(addr),
    {
        self.updaters.contains(&addr)
    }

    /// The admin; `NotInitialized` before `initialize`.
    pub fn get_admin(&self) -> (r: Result<Address, ReputationError>)
        ensures
            r == match self.admin {
                Some(a) => Ok(a),
                None => Err(ReputationError::NotInitialized),
            },
    {
        match self.admin {
            Some(a) => Ok(a),
            None => Err(ReputationError::NotInitialized),
        }
    }

    /// `caller` must be the admin.
    fn require_admin(&self, caller: Address) -> (r: Result<(), ReputationError>)
        ensures
            r == (match self.admin {
                None => Err(ReputationError::NotInitialized),
                Some(a) => if a == caller {
                    Ok(())
                } else {
                    Err(ReputationError::NotAdmin)
                },
            }),
    {
        let admin = self.get_admin()?;
        if caller != admin {
            return Err(ReputationError::NotAdmin);
        }
        Ok(())
    }

    /// `addr` must hold the updater role.
    pub fn require_updater(&self, addr: Address) -> (r: Result<(), ReputationError>)
        ensures
            r is Ok <==> self.updaters@.contains(addr),
            r is Err ==> r->Err_0 == ReputationError::NotUpdater,
    {
        if !self.is_updater(addr) {
            return Err(ReputationError::NotUpdater);
        }
        Ok(())
    }

    /// Stores `score` for `user`.
    fn write_score(&mut self, user: Address, score: u32)
        requires
            old(self).wf(),
            score <= MAX_SCORE,
        ensures
            final(self).wf(),
            *final(self) == (ReputationContract { scores: final(self).scores, ..*old(self) }),
            final(self).scores@ == old(self).scores@.insert(user, score),
    {
        self.scores.insert(user, score);
    }

    /// Raises `user`'s score by `amount` (`updater` authorizes).
    fn raise(&mut self, updater: Address, user: Address, amount: u32) -> (r: Result<
        (),
        ReputationError,
    >)
        requires
            old(self).wf(),
        ensures
            final(self).wf(),
            Self::score_update(
                *old(self),
                *final(self),
                user,
                old(self).spec_raise(updater, user, amount),
                r,
            ),
    {
        self.require_updater(updater)?;
        if self.reentrancy_locked {
            return Err(ReputationError::ReentrancyDetected);
        }
        let old_score = self.get_score(user);
        let new_score = add_u32(old_score, amount)?;
        if new_score > MAX_SCORE {
            return Err(ReputationError::Overflow);
        }
        self.write_score(user, new_score);
        Ok(())
    }

    /// Lowers `user`'s score by `amount` (`updater` authorizes).
    fn lower(&mut self, updater: Address, user: Address, amount: u32) -> (r: Result<
        (),
        ReputationError,
    >)
        requires
            old(self).wf(),
        ensures
            final(self).wf(),
            Self::score_update(
                *old(self),
                *final(self),
                user,
                old(self).spec_lower(updater, user, amount),
                r,
            ),
    {
        self.require_updater(updater)?;
        if self.reentrancy_locked {
            return Err(ReputationError::ReentrancyDetected);
        }
        let old_score = self.get_score(user);
        let new_score = sub_u32(old_score, amount)?;
        self.write_score(user, new_score);
        Ok(())
    }

    /// Raises `user`'s score by `amount`; refused with `Overflow` when the
    /// result would pass `MAX_SCORE`.
    pub fn increase_score(&mut self, updater: Address, user: Address, amount: u32) -> (r: Result<
        (),
        ReputationError,
    >)
        requires
            old(self).wf(),
        ensures
            final(self).wf(),
            Self::score_update(
                *old(self),
                *final(self),
                user,
                old(self).spec_raise(updater, user, amount),
                r,
            ),
    {
        self.raise(updater, user, amount)
    }

    /// Lowers `user`'s score by `amount`; refused with `Underflow` when the
    /// score is smaller than `amount`.
    pub fn decrease_score(&mut self, updater: Address, user: Address, amount: u32) -> (r: Result<
        (),
        ReputationError,
    >)
        requires
            old(self).wf(),
        ensures
            final(self).wf(),
            Self::score_update(
                *old(self),
                *final(self),
                user,
                old(self).spec_lower(updater, user, amount),
                r,
            ),
    {
        self.lower(updater, user, amount)
    }

    /// Sets `user`'s score to `new_score`; refused with `OutOfBounds` past
    /// `MAX_SCORE`.
    pub fn set_score(&mut self, updater: Address, user: Address, new_score: u32) -> (r: Result<
        (),
        ReputationError,
    >)
        requires
            old(self).wf(),
        ensures
            final(self).wf(),
            Self::score_update(
                *old(self),
                *final(self),
                user,
                old(self).spec_set(updater, new_score),
                r,
            ),
    {
        self.require_updater(updater)?;
        if new_score > MAX_SCORE {
            return Err(ReputationError::OutOfBounds);
        }
        if self.reentrancy_locked {
            return Err(ReputationError::ReentrancyDetected);
        }
        self.write_score(user, new_score);
        Ok(())
    }

    /// Adds a mentor's vouching boost to `user`'s score (same rules as
    /// `increase_score`).
    pub fn add_boost(&mut self, updater: Address, user: Address, amount: u32) -> (r: Result<
        (),
        ReputationError,
    >)
        requires
            old(self).wf(),
        ensures
            final(self).wf(),
            Self::score_update(
                *old(self),
                *final(self),
                user,
                old(self).spec_raise(updater, user, amount),
                r,
            ),
    {
        self.raise(updater, user, amount)
    }

    /// Removes a mentor's vouching boost from `user`'s score (same rules as
    /// `decrease_score`).
    pub fn remove_boost(&mut self, updater: Address, user: Address, amount: u32) -> (r: Result<
        (),
        ReputationError,
    >)
        requires
            old(self).wf(),
        ensures
            final(self).wf(),
            Self::score_update(
                *old(self),
                *final(self),
                user,
                old(self).spec_lower(updater, user, amount),
                r,
            ),
    {
        self.lower(updater, user, amount)
    }

    /// Grants (`allowed`) or revokes the updater role of `updater`; `admin`
    /// must be the stored admin.
    pub fn set_updater(&mut self, admin: Address, updater: Address, allowed: bool) -> (r: Result<
        (),
        ReputationError,
    >)
        requires
            old(self).wf(),
        ensures
            final(self).wf(),
            r is Ok <==> old(self).admin == Some(admin) && !old(self).reentrancy_locked,
            r is Err ==> *final(self) == *old(self) && r->Err_0 == (if old(self).admin is None {
                ReputationError::NotInitialized
            } else if old(self).admin != Some(admin) {
                ReputationError::NotAdmin
            } else {
                ReputationError::ReentrancyDetected
            }),
            r is Ok ==> *final(self) == (ReputationContract {
                updaters: final(self).updaters,
                ..*old(self)
            }) && final(self).updaters@ == if allowed {
                old(self).updaters@.insert(updater)
            } else {
                old(self).updaters@.remove(updater)
            },
    {
        self.require_admin(admin)?;
        if self.reentrancy_locked {
            return Err(ReputationError::ReentrancyDetected);
        }
        if allowed {
            self.updaters.insert(updater);
        } else {
            self.updaters.remove(&updater);
        }
        Ok(())
    }

    /// One-time setup of the admin (the admin authorizes).
    pub fn initialize(&mut self, admin: Address) -> (r: Result<(), ReputationError>)
        requires
            old(self).wf(),
        ensures
            final(self).wf(),
            r is Ok <==> old(self).admin is None,
            r is Err ==> *final(self) == *old(self) && r->Err_0
                == ReputationError::AlreadyInitialized,
            r is Ok ==> *final(self) == (ReputationContract { admin: Some(admin), ..*old(self) }),
    {
        if self.admin.is_some() {
            return Err(ReputationError::AlreadyInitialized);
        }
        self.admin = Some(admin);
        Ok(())
    }

    /// Hands the admin role to `new_admin` (the current admin authorizes);
    /// `NotInitialized` when there is no admin to hand it over.
    pub fn set_admin(&mut self, new_admin: Address) -> (r: Result<(), ReputationError>)
        requires
            old(self).wf(),
        ensures
            final(self).wf(),
            r is Ok <==> old(self).admin is Some && !old(self).reentrancy_locked,
            r is Err ==> *final(self) == *old(self) && r->Err_0 == (if old(self).admin is None {
                ReputationError::NotInitialized
            } else {
                ReputationError::ReentrancyDetected
            }),
            r is Ok ==> *final(self) == (ReputationContract {
                admin: Some(new_admin),
                ..*old(self)
            }),
    {
        let old_admin = self.get_admin()?;
        self.require_admin(old_admin)?;
        if self.reentrancy_locked {
            return Err(ReputationError::ReentrancyDetected);
        }
        self.admin = Some(new_admin);
        Ok(())
    }

    /// Checks an upgrade (the admin authorizes; the caller installs the
    /// code). Storage is unchanged.
    pub fn upgrade(&self) -> (r: Result<(), ReputationError>)
        ensures
            r is Ok <==> self.admin is Some && !self.reentrancy_locked,
            r is Err ==> r->Err_0 == (if self.admin is None {
                ReputationError::NotInitialized
            } else {
                ReputationError::ReentrancyDetected
            }),
    {
        let _admin = self.get_admin()?;
        if self.reentrancy_locked {
            return Err(ReputationError::ReentrancyDetected);
        }
        Ok(())
    }
}

/// Removing a boost right after adding it gives back the score from before:
/// if `add_boost(updater, user, amount)` takes `before` to `after`, then
/// `remove_boost(updater, user, amount)` on `after` succeeds with the
/// score it had before.
pub proof fn lemma_boost_round_trip(
    before: ReputationContract,
    after: ReputationContract,
    updater: Address,
    user: Address,
    amount: u32,
)
    requires
        before.spec_raise(updater, user, amount) is Ok,
        ReputationContract::score_update(
            before,
            after,
            user,
            before.spec_raise(updater, user, amount),
            Ok(()),
        ),
    ensures
        after.spec_lower(updater, user, amount) == Ok::<u32, ReputationError>(before.score_of(user)),
        forall|u: Address| u != user ==> after.score_of(u) == before.score_of(u),
{
}

} // verus!
