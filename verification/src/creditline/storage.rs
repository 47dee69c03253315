use vstd::prelude::*;
use std::collections::HashMap;
use crate::{lemma_pair_key_injective, pair_key, spec_pair_key, Address};
use super::errors::CreditLineError;
use super::ledger::spec_loan_debt;
use super::types::{loan_balanced, Loan, LoanStatus};

verus! {

broadcast use vstd::std_specs::hash::group_hash_axioms;

/// Number of storage shards loans are spread over.
pub const LOAN_SHARD_COUNT: u32 = 32;

/// Storage of the credit-line contract.
pub struct CreditLineContract {
    pub admin: Option<Address>,
    pub reputation_contract: Option<Address>,
    pub vendor_registry: Option<Address>,
    pub liquidity_pool: Option<Address>,
    pub token: Option<Address>,
    pub parameters_contract: Option<Address>,
    /// Last loan id handed out (ids start at 1).
    pub loan_counter: u64,
    /// Loan records by id.
    pub loans: HashMap<u64, Loan>,
    /// Number of loans each borrower has taken.
    pub user_loan_count: HashMap<Address, u64>,
    /// `(borrower, index)` → loan id, the borrower's loans in creation order.
    pub user_loan_at: HashMap<u128, u64>,
    /// Sum of the balances a borrower currently owes.
    pub user_active_debt: HashMap<Address, i128>,
    pub reentrancy_locked: bool,
    pub paused: bool,
    pub version: u32,
}

impl CreditLineContract {
    /// Configuration, flags and version agree.
    pub open spec fn settings_eq(self, o: Self) -> bool {
        &&& self.admin == o.admin
        &&& self.reputation_contract == o.reputation_contract
        &&& self.vendor_registry == o.vendor_registry
        &&& self.liquidity_pool == o.liquidity_pool
        &&& self.token == o.token
        &&& self.parameters_contract == o.parameters_contract
        &&& self.reentrancy_locked == o.reentrancy_locked
        &&& self.paused == o.paused
        &&& self.version == o.version
    }

    /// Loans, borrower index and debts agree.
    pub open spec fn ledger_eq(self, o: Self) -> bool {
        &&& self.loans@ == o.loans@
        &&& self.user_loan_count@ == o.user_loan_count@
        &&& self.user_loan_at@ == o.user_loan_at@
        &&& self.user_active_debt@ == o.user_active_debt@
    }

    /// Borrower index and debts agree.
    pub open spec fn ledger_eq_except_loans(self, o: Self) -> bool {
        &&& self.user_loan_count@ == o.user_loan_count@
        &&& self.user_loan_at@ == o.user_loan_at@
        &&& self.user_active_debt@ == o.user_active_debt@
    }

    /// The borrower index of `new` is that of `self` with `loan_id` appended
    /// to `b`'s list.
    pub open spec fn index_appended(self, new: Self, b: Address, loan_id: u64) -> bool {
        let n = self.spec_loan_count(b);
        &&& new.user_loan_count@ == self.user_loan_count@.insert(b, (n + 1) as u64)
        &&& new.user_loan_at@ == self.user_loan_at@.insert(spec_pair_key(b, n), loan_id)
    }

    /// Well-formedness: the loans are well formed and the debt ledger is
    /// consistent with them.
    pub open spec fn wf(self) -> bool {
        self.loans_wf() && self.debt_tracked()
    }

    /// Every stored loan sits under its own id, which was handed out by the
    /// counter, and its buckets add up to its balance.
    pub open spec fn loans_wf(self) -> bool {
        forall|id: u64|
            #![trigger self.loans@[id]]
            self.loans@.contains_key(id) ==> {
                &&& 1 <= id <= self.loan_counter
                &&& self.loans@[id].loan_id == id
                &&& loan_balanced(self.loans@[id])
            }
    }

    /// Number of loans recorded for `b` (0 when none).
    pub open spec fn spec_loan_count(self, b: Address) -> u64 {
        if self.user_loan_count@.contains_key(b) { self.user_loan_count@[b] } else { 0 }
    }

    /// Active debt recorded for `b` (0 when none).
    pub open spec fn spec_active_debt(self, b: Address) -> i128 {
        if self.user_active_debt@.contains_key(b) { self.user_active_debt@[b] } else { 0 }
    }

    /// The storage of a freshly deployed, uninitialized contract.
    pub fn new() -> (c: Self)
        ensures
            c.admin is None,
            c.reputation_contract is None,
            c.vendor_registry is None,
            c.liquidity_pool is None,
            c.token is None,
            c.parameters_contract is None,
            c.loan_counter == 0,
            c.loans@ == Map::<u64, Loan>::empty(),
            c.user_loan_count@ == Map::<Address, u64>::empty(),
            c.user_loan_at@ == Map::<u128, u64>::empty(),
            c.user_active_debt@ == Map::<Address, i128>::empty(),
            !c.reentrancy_locked,
            !c.paused,
            c.version == 1,
            c.wf(),
    {
        let c = CreditLineContract {
            admin: None,
            reputation_contract: None,
            vendor_registry: None,
            liquidity_pool: None,
            token: None,
            parameters_contract: None,
            loan_counter: 0,
            loans: HashMap::new(),
            user_loan_count: HashMap::new(),
            user_loan_at: HashMap::new(),
            user_active_debt: HashMap::new(),
            reentrancy_locked: false,
            paused: false,
            version: 1,
        };
        proof {
            c.lemma_empty_ledger();
        }
        c
    }

    /// The stored admin; `NotInitialized` before `initialize`.
    pub fn get_admin(&self) -> (r: Result<Address, CreditLineError>)
        ensures
            r == match self.admin {
                Some(a) => Ok(a),
                None => Err(CreditLineError::NotInitialized),
            },
    {
        match self.admin {
            Some(a) => Ok(a),
            None => Err(CreditLineError::NotInitialized),
        }
    }

    /// Last loan id handed out.
    pub fn get_loan_counter(&self) -> (r: u64)
        ensures
            r == self.loan_counter,
    {
        self.loan_counter
    }

    /// Advances the loan counter and returns the new id.
    pub fn increment_loan_counter(&mut self) -> (r: Result<u64, CreditLineError>)
        ensures
            old(self).loan_counter < u64::MAX ==> r == Ok::<u64, CreditLineError>(
                (old(self).loan_counter + 1) as u64,
            ) && final(self).loan_counter == old(self).loan_counter + 1,
            old(self).loan_counter == u64::MAX ==> r == Err::<u64, CreditLineError>(
                CreditLineError::Overflow,
            ) && *final(self) == *old(self),
            final(self).settings_eq(*old(self)),
            final(self).ledger_eq(*old(self)),
    {
        if self.loan_counter == u64::MAX {
            return Err(CreditLineError::Overflow);
        }
        self.loan_counter = self.loan_counter + 1;
        Ok(self.loan_counter)
    }

    /// The loan with id `loan_id`; `LoanNotFound` when absent.
    pub fn read_loan(&self, loan_id: u64) -> (r: Result<&Loan, CreditLineError>)
        ensures
            self.loans@.contains_key(loan_id) ==> r is Ok && *r->Ok_0 == self.loans@[loan_id],
            !self.loans@.contains_key(loan_id) ==> r == Err::<&Loan, CreditLineError>(
                CreditLineError::LoanNotFound,
            ),
    {
        match self.loans.get(&loan_id) {
            Some(l) => Ok(l),
            None => Err(CreditLineError::LoanNotFound),
        }
    }

    /// The loan with id `loan_id`; `LoanNotFound` when absent.
    pub fn get_loan(&self, loan_id: u64) -> (r: Result<&Loan, CreditLineError>)
        ensures
            self.loans@.contains_key(loan_id) ==> r is Ok && *r->Ok_0 == self.loans@[loan_id],
            !self.loans@.contains_key(loan_id) ==> r == Err::<&Loan, CreditLineError>(
                CreditLineError::LoanNotFound,
            ),
    {
        self.read_loan(loan_id)
    }

    /// Number of loans recorded for `borrower`.
    pub fn get_user_loan_count(&self, borrower: Address) -> (r: u64)
        ensures
            r == self.spec_loan_count(borrower),
    {
        match self.user_loan_count.get(&borrower) {
            Some(c) => *c,
            None => 0,
        }
    }

    /// Active debt recorded for `borrower`.
    pub fn get_user_active_debt(&self, borrower: Address) -> (r: i128)
        ensures
            r == self.spec_active_debt(borrower),
    {
        match self.user_active_debt.get(&borrower) {
            Some(d) => *d,
            None => 0,
        }
    }
}

impl CreditLineContract {
    /// Stores `loan`. A loan id seen for the first time is appended to its
    /// borrower's index.
    pub fn write_loan(&mut self, loan: Loan) -> (r: Result<(), CreditLineError>)
        ensures
            r is Err ==> *final(self) == *old(self) && r == Err::<(), CreditLineError>(
                CreditLineError::Overflow,
            ),
            r is Err <==> !old(self).loans@.contains_key(loan.loan_id)
                && old(self).spec_loan_count(loan.borrower) == u64::MAX,
            r is Ok ==> final(self).loans@ == old(self).loans@.insert(loan.loan_id, loan),
            r is Ok && old(self).loans@.contains_key(loan.loan_id) ==> final(self).user_loan_count@
                == old(self).user_loan_count@ && final(self).user_loan_at@ == old(self).user_loan_at@,
            r is Ok && !old(self).loans@.contains_key(loan.loan_id) ==> old(self).index_appended(
                *final(self),
                loan.borrower,
                loan.loan_id,
            ),
            r is Ok ==> old(self).spec_written(loan, *final(self)),
            final(self).settings_eq(*old(self)),
            final(self).loan_counter == old(self).loan_counter,
            final(self).user_active_debt@ == old(self).user_active_debt@,
    {
        let id = loan.loan_id;
        let borrower = loan.borrower;
        let is_new = !self.loans.contains_key(&id);
        if is_new {
            let count = self.get_user_loan_count(borrower);
            if count == u64::MAX {
                return Err(CreditLineError::Overflow);
            }
            self.user_loan_at.insert(pair_key(borrower, count), id);
            self.user_loan_count.insert(borrower, count + 1);
        }
        self.loans.insert(id, loan);
        Ok(())
    }

    /// Adds `amount` to `borrower`'s active debt.
    pub fn increase_user_active_debt(&mut self, borrower: Address, amount: i128) -> (r: Result<
        (),
        CreditLineError,
    >)
        ensures
            r is Ok <==> i128::MIN <= old(self).spec_active_debt(borrower) + amount <= i128::MAX,
            r is Err ==> *final(self) == *old(self) && r == Err::<(), CreditLineError>(
                CreditLineError::Overflow,
            ),
            r is Ok ==> final(self).user_active_debt@ == old(self).user_active_debt@.insert(
                borrower,
                (old(self).spec_active_debt(borrower) + amount) as i128,
            ),
            final(self).settings_eq(*old(self)),
            final(self).loan_counter == old(self).loan_counter,
            final(self).loans@ == old(self).loans@,
            final(self).user_loan_count@ == old(self).user_loan_count@,
            final(self).user_loan_at@ == old(self).user_loan_at@,
    {
        let current = self.get_user_active_debt(borrower);
        match current.checked_add(amount) {
            Some(next) => {
                self.user_active_debt.insert(borrower, next);
                Ok(())
            },
            None => Err(CreditLineError::Overflow),
        }
    }

    /// Subtracts `amount` from `borrower`'s active debt.
    pub fn decrease_user_active_debt(&mut self, borrower: Address, amount: i128) -> (r: Result<
        (),
        CreditLineError,
    >)
        ensures
            r is Ok <==> i128::MIN <= old(self).spec_active_debt(borrower) - amount <= i128::MAX,
            r is Err ==> *final(self) == *old(self) && r == Err::<(), CreditLineError>(
                CreditLineError::Underflow,
            ),
            r is Ok ==> final(self).user_active_debt@ == old(self).user_active_debt@.insert(
                borrower,
                (old(self).spec_active_debt(borrower) - amount) as i128,
            ),
            final(self).settings_eq(*old(self)),
            final(self).loan_counter == old(self).loan_counter,
            final(self).loans@ == old(self).loans@,
            final(self).user_loan_count@ == old(self).user_loan_count@,
            final(self).user_loan_at@ == old(self).user_loan_at@,
    {
        let current = self.get_user_active_debt(borrower);
        match current.checked_sub(amount) {
            Some(next) => {
                self.user_active_debt.insert(borrower, next);
                Ok(())
            },
            None => Err(CreditLineError::Underflow),
        }
    }

    /// Ids of `borrower`'s loans with index in `[start, start + limit)`,
    /// clipped to the loans recorded; index slots without an entry are
    /// skipped.
    pub fn get_user_loan_ids_paginated(&self, borrower: Address, start: u64, limit: u32) -> (r:
        Vec<u64>)
        ensures
            r@ == self.spec_page_ids(borrower, start as int, Self::spec_page_end(
                self.spec_loan_count(borrower),
                start,
                limit,
            )),
    {
        let total = self.get_user_loan_count(borrower);
        let mut result: Vec<u64> = Vec::new();
        if limit == 0 || start >= total {
            proof {
                assert(result@ =~= self.spec_page_ids(borrower, start as int, Self::spec_page_end(total, start, limit)));
            }
            return result;
        }
        let end = if start.saturating_add(limit as u64) < total {
            start.saturating_add(limit as u64)
        } else {
            total
        };
        let mut idx: u64 = start;
        while idx < end
            invariant
                start <= idx <= end,
                end == Self::spec_page_end(total, start, limit),
                total == self.spec_loan_count(borrower),
                result@ == self.spec_page_ids(borrower, start as int, idx as int),
            decreases end - idx,
        {
            let key = pair_key(borrower, idx);
            match self.user_loan_at.get(&key) {
                Some(id) => {
                    result.push(*id);
                },
                None => {},
            }
            idx = idx + 1;
        }
        result
    }

    /// End (exclusive) of the requested page.
    pub open spec fn spec_page_end(total: u64, start: u64, limit: u32) -> int {
        if limit == 0 || start >= total {
            start as int
        } else if start + limit < total {
            start + limit
        } else {
            total as int
        }
    }

    /// Loan ids found at index slots `[lo, hi)` of `b`'s list, in order.
    pub open spec fn spec_page_ids(self, b: Address, lo: int, hi: int) -> Seq<u64>
        decreases hi - lo,
    {
        if hi <= lo {
            Seq::empty()
        } else {
            let prev = self.spec_page_ids(b, lo, hi - 1);
            let key = spec_pair_key(b, (hi - 1) as u64);
            if self.user_loan_at@.contains_key(key) {
                prev.push(self.user_loan_at@[key])
            } else {
                prev
            }
        }
    }

    /// The loans on the requested page of `borrower`'s list (see
    /// `get_user_loans_paginated`).
    pub fn get_user_loans(&self, borrower: Address, start: u64, limit: u32) -> (r: Result<
        Vec<&Loan>,
        CreditLineError,
    >)
        ensures
            ({
                let ids = self.spec_page_ids(
                    borrower,
                    start as int,
                    Self::spec_page_end(self.spec_loan_count(borrower), start, limit),
                );
                &&& r is Ok <==> forall|i: int|
                    0 <= i < ids.len() ==> self.loans@.contains_key(#[trigger] ids[i])
                &&& r is Err ==> r == Err::<Vec<&Loan>, CreditLineError>(
                    CreditLineError::LoanNotFound,
                )
                &&& r is Ok ==> r->Ok_0@.len() == ids.len() && forall|i: int|
                    0 <= i < ids.len() ==> *(#[trigger] r->Ok_0@[i]) == self.loans@[ids[i]]
            }),
    {
        self.get_user_loans_paginated(borrower, start, limit)
    }

    /// The loans on the requested page of `borrower`'s list.
    pub fn get_user_loans_paginated(&self, borrower: Address, start: u64, limit: u32) -> (r:
        Result<Vec<&Loan>, CreditLineError>)
        ensures
            ({
                let ids = self.spec_page_ids(
                    borrower,
                    start as int,
                    Self::spec_page_end(self.spec_loan_count(borrower), start, limit),
                );
                &&& r is Ok <==> forall|i: int|
                    0 <= i < ids.len() ==> self.loans@.contains_key(#[trigger] ids[i])
                &&& r is Err ==> r == Err::<Vec<&Loan>, CreditLineError>(
                    CreditLineError::LoanNotFound,
                )
                &&& r is Ok ==> r->Ok_0@.len() == ids.len() && forall|i: int|
                    0 <= i < ids.len() ==> *(#[trigger] r->Ok_0@[i]) == self.loans@[ids[i]]
            }),
    {
        let ids = self.get_user_loan_ids_paginated(borrower, start, limit);
        let mut loans: Vec<&Loan> = Vec::new();
        let mut i: usize = 0;
        while i < ids.len()
            invariant
                0 <= i <= ids@.len(),
                ids@ == self.spec_page_ids(
                    borrower,
                    start as int,
                    Self::spec_page_end(self.spec_loan_count(borrower), start, limit),
                ),
                loans@.len() == i,
                forall|j: int| 0 <= j < i ==> self.loans@.contains_key(#[trigger] ids@[j]),
                forall|j: int| 0 <= j < i ==> *(#[trigger] loans@[j]) == self.loans@[ids@[j]],
            decreases ids@.len() - i,
        {
            match self.loans.get(&ids[i]) {
                Some(l) => {
                    loans.push(l);
                },
                None => {
                    assert(!self.loans@.contains_key(ids@[i as int]));
                    assert(!(forall|j: int|
                        0 <= j < ids@.len() ==> self.loans@.contains_key(#[trigger] ids@[j])));
                    return Err(CreditLineError::LoanNotFound);
                },
            }
            i = i + 1;
        }
        Ok(loans)
    }
}

impl CreditLineContract {
    /// Whether `loan` can be replayed onto `self`: its id is past the
    /// counter, its buckets add up to its balance, its borrower's index has
    /// room, and an active balance keeps the borrower's debt in range.
    pub open spec fn spec_restorable(self, loan: Loan) -> bool {
        &&& loan.loan_id > self.loan_counter
        &&& loan_balanced(loan)
        &&& self.spec_loan_count(loan.borrower) < u64::MAX
        &&& loan.status == LoanStatus::Active ==> self.spec_active_debt(loan.borrower)
            + loan.remaining_balance <= i128::MAX
    }

    /// Replays a stored loan record onto the ledger, as its creation did:
    /// the counter moves to its id, the id joins its borrower's index and an
    /// active balance joins the borrower's debt. Records replayed in id order
    /// rebuild the index and the debts they were stored with. Returns false,
    /// changing nothing, for a record that does not fit (see
    /// `spec_restorable`).
    pub fn restore_loan(&mut self, loan: Loan) -> (accepted: bool)
        requires
            old(self).wf(),
        ensures
            final(self).wf(),
            accepted == old(self).spec_restorable(loan),
            !accepted ==> *final(self) == *old(self),
            accepted ==> {
                &&& final(self).loan_counter == loan.loan_id
                &&& final(self).loans@ == old(self).loans@.insert(loan.loan_id, loan)
                &&& old(self).index_appended(*final(self), loan.borrower, loan.loan_id)
                &&& final(self).user_active_debt@ == if loan.status == LoanStatus::Active {
                    old(self).user_active_debt@.insert(
                        loan.borrower,
                        (old(self).spec_active_debt(loan.borrower) + loan.remaining_balance) as i128,
                    )
                } else {
                    old(self).user_active_debt@
                }
                &&& final(self).settings_eq(*old(self))
            },
    {
        let id = loan.loan_id;
        let b = loan.borrower;
        if id <= self.loan_counter {
            return false;
        }
        if loan.principal_outstanding < 0 || loan.interest_outstanding < 0
            || loan.service_fee_outstanding < 0 || loan.late_fees_outstanding < 0 {
            return false;
        }
        let sum = match loan.principal_outstanding.checked_add(loan.interest_outstanding) {
            Some(a) => match a.checked_add(loan.service_fee_outstanding) {
                Some(b2) => b2.checked_add(loan.late_fees_outstanding),
                None => None,
            },
            None => None,
        };
        match sum {
            Some(total) => {
                if total != loan.remaining_balance {
                    return false;
                }
            },
            None => {
                return false;
            },
        }
        if self.get_user_loan_count(b) == u64::MAX {
            return false;
        }
        let active = loan.status == LoanStatus::Active;
        let debt = self.get_user_active_debt(b);
        let mut new_debt = debt;
        if active {
            match debt.checked_add(loan.remaining_balance) {
                Some(d) => {
                    new_debt = d;
                },
                None => {
                    return false;
                },
            }
        }
        proof {
            assert(!old(self).loans@.contains_key(id)) by {
                if old(self).loans@.contains_key(id) {
                    assert(old(self).loans@[id].loan_id == id);
                }
            }
        }
        self.loan_counter = id;
        let w = self.write_loan(loan);
        if active {
            self.user_active_debt.insert(b, new_debt);
        }
        proof {
            assert(w is Ok);
            assert forall|x: u64| #[trigger] self.loans@.contains_key(x) implies {
                &&& 1 <= x <= self.loan_counter
                &&& self.loans@[x].loan_id == x
                &&& loan_balanced(self.loans@[x])
            } by {
                if x != id {
                    assert(old(self).loans@.contains_key(x));
                    assert(old(self).loans@[x].loan_id == x);
                }
            }
            assert forall|x: Address| #[trigger] self.spec_active_debt(x) == old(self).spec_active_debt(x)
                + if x == self.loans@[id].borrower {
                spec_loan_debt(self.loans@, id)
            } else {
                0
            } by {}
            self.lemma_append_keeps_ledger(*old(self), id);
        }
        true
    }

    /// Moves the loan counter forward to `counter` (ids handed out for
    /// records no longer stored). Returns false, changing nothing, for a
    /// counter below the current one.
    pub fn restore_loan_counter(&mut self, counter: u64) -> (accepted: bool)
        requires
            old(self).wf(),
        ensures
            final(self).wf(),
            accepted == (counter >= old(self).loan_counter),
            accepted ==> final(self).loan_counter == counter,
            !accepted ==> final(self).loan_counter == old(self).loan_counter,
            final(self).ledger_eq(*old(self)),
            final(self).settings_eq(*old(self)),
    {
        if counter < self.loan_counter {
            return false;
        }
        self.loan_counter = counter;
        proof {
            self.lemma_ledger_frame_keeps_wf(*old(self));
        }
        true
    }
}

impl CreditLineContract {
    /// `new` is `self` after `loan` was written: the record is stored
    /// under its id; an id seen for the first time is appended to its
    /// borrower's index, and a rewrite leaves the index as it was.
    pub open spec fn spec_written(self, loan: Loan, new: Self) -> bool {
        &&& new.loans@ == self.loans@.insert(loan.loan_id, loan)
        &&& self.loans@.contains_key(loan.loan_id) ==> new.user_loan_count@
            == self.user_loan_count@ && new.user_loan_at@ == self.user_loan_at@
        &&& !self.loans@.contains_key(loan.loan_id) ==> self.index_appended(
            new,
            loan.borrower,
            loan.loan_id,
        )
    }

    /// Ids of the loans of `b` among the first `n` writes `ws` that were
    /// first writes (`states[j]` being the contract before `ws[j]`), in
    /// write order.
    pub open spec fn spec_first_written_ids(
        states: Seq<CreditLineContract>,
        ws: Seq<Loan>,
        b: Address,
        n: int,
    ) -> Seq<u64>
        decreases n,
    {
        if n <= 0 {
            Seq::empty()
        } else {
            let prev = Self::spec_first_written_ids(states, ws, b, n - 1);
            let w = ws[n - 1];
            if w.borrower == b && !states[n - 1].loans@.contains_key(w.loan_id) {
                prev.push(w.loan_id)
            } else {
                prev
            }
        }
    }

    /// The page ids of `b`'s index over `[lo, hi)` depend only on the index
    /// entries of `b` at those positions.
    proof fn lemma_page_ids_frame(self, other: Self, b: Address, lo: int, hi: int)
        requires
            0 <= lo,
            hi < u64::MAX,
            forall|i: int|
                lo <= i < hi ==> (#[trigger] self.user_loan_at@.contains_key(spec_pair_key(b, i as u64))
                    <==> other.user_loan_at@.contains_key(spec_pair_key(b, i as u64))) && (
                self.user_loan_at@.contains_key(spec_pair_key(b, i as u64))
                    ==> self.user_loan_at@[spec_pair_key(b, i as u64)]
                    == other.user_loan_at@[spec_pair_key(b, i as u64)]),
        ensures
            self.spec_page_ids(b, lo, hi) == other.spec_page_ids(b, lo, hi),
        decreases hi - lo,
    {
        if hi > lo {
            self.lemma_page_ids_frame(other, b, lo, hi - 1);
            assert(self.user_loan_at@.contains_key(spec_pair_key(b, (hi - 1) as u64))
                <==> other.user_loan_at@.contains_key(spec_pair_key(b, (hi - 1) as u64)));
        }
    }

    /// Reading back after writes: let `ws` be written one by one
    /// (`states[j + 1]` is `states[j]` after writing `ws[j]`), onto a
    /// contract where `b` had no loans. The writes may be first writes or
    /// rewrites, of `b`'s loans or others'. Then `b` has as many loans as
    /// there were first writes of `b`'s loans, every page `[lo, hi)` of `b`'s
    /// list holds exactly the ids of those first writes `lo..hi`, in write
    /// order, and each of those ids names a stored loan. With the contract of
    /// `get_user_loans`, a page of `b`'s loans is the current records of
    /// those loans, in the order they were first written.
    pub proof fn lemma_written_loans_listed_in_order(
        states: Seq<CreditLineContract>,
        ws: Seq<Loan>,
        b: Address,
        n: int,
    )
        requires
            0 <= n <= ws.len(),
            states.len() == ws.len() + 1,
            ws.len() < u64::MAX,
            states[0].spec_loan_count(b) == 0,
            forall|j: int| 0 <= j < ws.len() ==> #[trigger] states[j].spec_written(ws[j], states[j + 1]),
        ensures
            ({
                let ids = Self::spec_first_written_ids(states, ws, b, n);
                &&& ids.len() <= n
                &&& states[n].spec_loan_count(b) == ids.len()
                &&& forall|lo: int, hi: int|
                    0 <= lo <= hi <= ids.len() ==> #[trigger] states[n].spec_page_ids(b, lo, hi)
                        == ids.subrange(lo, hi)
                &&& forall|j: int|
                    0 <= j < ids.len() ==> states[n].loans@.contains_key(#[trigger] ids[j])
            }),
        decreases n,
    {
        if n == 0 {
            let ids = Self::spec_first_written_ids(states, ws, b, n);
            assert forall|lo: int, hi: int| 0 <= lo <= hi <= ids.len() implies #[trigger] states[n].spec_page_ids(
                b,
                lo,
                hi,
            ) == ids.subrange(lo, hi) by {
                assert(ids.subrange(lo, hi) =~= Seq::<u64>::empty());
            }
        } else {
            let k = n - 1;
            Self::lemma_written_loans_listed_in_order(states, ws, b, k);
            let prev = states[k];
            let last = states[n];
            let w = ws[k];
            let pids = Self::spec_first_written_ids(states, ws, b, k);
            let ids = Self::spec_first_written_ids(states, ws, b, n);
            let m = pids.len() as int;
            assert(states[k].spec_written(ws[k], states[k + 1]));
            assert(k + 1 == n);
            let listed = w.borrower == b && !prev.loans@.contains_key(w.loan_id);
            if prev.loans@.contains_key(w.loan_id) {
                assert(ids == pids);
                assert(last.spec_loan_count(b) == prev.spec_loan_count(b));
                assert forall|lo: int, hi: int| 0 <= lo <= hi <= ids.len() implies #[trigger] last.spec_page_ids(
                    b,
                    lo,
                    hi,
                ) == ids.subrange(lo, hi) by {
                    last.lemma_page_ids_frame(prev, b, lo, hi);
                }
            } else {
                let nb = prev.spec_loan_count(w.borrower);
                assert(last.user_loan_at@ == prev.user_loan_at@.insert(
                    spec_pair_key(w.borrower, nb),
                    w.loan_id,
                ));
                assert forall|lo: int, hi: int| 0 <= lo <= hi <= m implies #[trigger] last.spec_page_ids(
                    b,
                    lo,
                    hi,
                ) == prev.spec_page_ids(b, lo, hi) by {
                    assert forall|i: int| lo <= i < hi implies (
                    #[trigger] last.user_loan_at@.contains_key(spec_pair_key(b, i as u64))
                        <==> prev.user_loan_at@.contains_key(spec_pair_key(b, i as u64))) && (
                    last.user_loan_at@.contains_key(spec_pair_key(b, i as u64))
                        ==> last.user_loan_at@[spec_pair_key(b, i as u64)]
                        == prev.user_loan_at@[spec_pair_key(b, i as u64)]) by {
                        lemma_pair_key_injective(b, i as u64, w.borrower, nb);
                    }
                    last.lemma_page_ids_frame(prev, b, lo, hi);
                }
                if listed {
                    assert(ids == pids.push(w.loan_id));
                    assert(last.spec_loan_count(b) == m + 1);
                    assert forall|lo: int, hi: int| 0 <= lo <= hi <= ids.len() implies #[trigger] last.spec_page_ids(
                        b,
                        lo,
                        hi,
                    ) == ids.subrange(lo, hi) by {
                        if hi <= m {
                            assert(prev.spec_page_ids(b, lo, hi) == pids.subrange(lo, hi));
                            assert(pids.subrange(lo, hi) =~= ids.subrange(lo, hi));
                        } else if lo == hi {
                            assert(ids.subrange(lo, hi) =~= Seq::<u64>::empty());
                        } else {
                            assert(last.spec_page_ids(b, lo, m) == prev.spec_page_ids(b, lo, m));
                            assert(prev.spec_page_ids(b, lo, m) == pids.subrange(lo, m));
                            assert(last.user_loan_at@.contains_key(spec_pair_key(b, m as u64)));
                            assert(ids.subrange(lo, hi) =~= pids.subrange(lo, m).push(w.loan_id));
                        }
                    }
                } else {
                    assert(ids == pids);
                    assert(w.borrower != b);
                    assert(last.spec_loan_count(b) == prev.spec_loan_count(b));
                    assert forall|lo: int, hi: int| 0 <= lo <= hi <= ids.len() implies #[trigger] last.spec_page_ids(
                        b,
                        lo,
                        hi,
                    ) == ids.subrange(lo, hi) by {
                        assert(last.spec_page_ids(b, lo, hi) == prev.spec_page_ids(b, lo, hi));
                    }
                }
            }
            assert forall|j: int| 0 <= j < ids.len() implies last.loans@.contains_key(#[trigger] ids[j]) by {
                if j < m {
                    assert(ids[j] == pids[j]);
                    assert(prev.loans@.contains_key(pids[j]));
                }
            }
        }
    }
}

/// Storage shard of a loan id.
pub fn loan_shard(loan_id: u64) -> (r: u32)
    ensures
        r == loan_id % (LOAN_SHARD_COUNT as u64),
        r < LOAN_SHARD_COUNT,
{
    (loan_id % (LOAN_SHARD_COUNT as u64)) as u32
}


} // verus!
