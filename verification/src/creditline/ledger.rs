use vstd::prelude::*;
use crate::{lemma_pair_key_injective, spec_pair_key, Address};
use super::storage::CreditLineContract;
use super::types::{loan_balanced, Loan, LoanStatus};

verus! {

/// What loan `id` adds to its borrower's debt: its balance while active.
pub open spec fn spec_loan_debt(loans: Map<u64, Loan>, id: u64) -> int {
    if loans.contains_key(id) && loans[id].status == LoanStatus::Active {
        loans[id].remaining_balance as int
    } else {
        0
    }
}

/// The loan id at position `i` of `b`'s index.
pub open spec fn spec_index_entry(at: Map<u128, u64>, b: Address, i: int) -> u64 {
    at[spec_pair_key(b, i as u64)]
}

/// Sum of what the first `n` loans of `b`'s index add to its debt.
pub open spec fn spec_debt_sum(loans: Map<u64, Loan>, at: Map<u128, u64>, b: Address, n: int) -> int
    decreases n,
{
    if n <= 0 {
        0
    } else {
        spec_debt_sum(loans, at, b, n - 1) + spec_loan_debt(loans, spec_index_entry(at, b, n - 1))
    }
}

/// Whether `id` sits among the first `n` positions of `b`'s index.
pub open spec fn spec_listed(at: Map<u128, u64>, b: Address, n: int, id: u64) -> bool {
    exists|i: int| 0 <= i < n && #[trigger] spec_index_entry(at, b, i) == id
}

/// The first `n` positions of `b`'s index hold distinct ids.
pub open spec fn spec_index_distinct(at: Map<u128, u64>, b: Address, n: int) -> bool {
    forall|i: int, j: int|
        0 <= i < j < n ==> #[trigger] spec_index_entry(at, b, i) != #[trigger] spec_index_entry(
            at,
            b,
            j,
        )
}

/// The sum depends only on what the listed loans add.
pub proof fn lemma_debt_sum_frame(
    l1: Map<u64, Loan>,
    at1: Map<u128, u64>,
    l2: Map<u64, Loan>,
    at2: Map<u128, u64>,
    b: Address,
    n: int,
)
    requires
        forall|i: int|
            0 <= i < n ==> #[trigger] spec_loan_debt(l2, spec_index_entry(at2, b, i))
                == spec_loan_debt(l1, spec_index_entry(at1, b, i)),
    ensures
        spec_debt_sum(l2, at2, b, n) == spec_debt_sum(l1, at1, b, n),
    decreases n,
{
    if n > 0 {
        lemma_debt_sum_frame(l1, at1, l2, at2, b, n - 1);
        assert(spec_loan_debt(l2, spec_index_entry(at2, b, n - 1)) == spec_loan_debt(
            l1,
            spec_index_entry(at1, b, n - 1),
        ));
    }
}

/// Changing one loan moves the sum by that loan's change when it is listed
/// (once, the index holding no repeats), and not at all otherwise.
pub proof fn lemma_debt_sum_update(
    l1: Map<u64, Loan>,
    l2: Map<u64, Loan>,
    at: Map<u128, u64>,
    b: Address,
    n: int,
    id0: u64,
)
    requires
        spec_index_distinct(at, b, n),
        forall|id: u64| id != id0 ==> #[trigger] spec_loan_debt(l2, id) == spec_loan_debt(l1, id),
    ensures
        spec_debt_sum(l2, at, b, n) == spec_debt_sum(l1, at, b, n) + if spec_listed(at, b, n, id0) {
            spec_loan_debt(l2, id0) - spec_loan_debt(l1, id0)
        } else {
            0
        },
    decreases n,
{
    if n > 0 {
        assert(spec_index_distinct(at, b, n - 1));
        lemma_debt_sum_update(l1, l2, at, b, n - 1, id0);
        let last = spec_index_entry(at, b, n - 1);
        if last == id0 {
            assert(spec_listed(at, b, n, id0));
            assert(!spec_listed(at, b, n - 1, id0)) by {
                if spec_listed(at, b, n - 1, id0) {
                    let i = choose|i: int| 0 <= i < n - 1 && #[trigger] spec_index_entry(at, b, i) == id0;
                    assert(spec_index_entry(at, b, i) != spec_index_entry(at, b, n - 1));
                }
            }
        } else {
            assert(spec_listed(at, b, n, id0) == spec_listed(at, b, n - 1, id0)) by {
                if spec_listed(at, b, n, id0) {
                    let i = choose|i: int| 0 <= i < n && #[trigger] spec_index_entry(at, b, i) == id0;
                    assert(i < n - 1);
                }
            }
        }
    }
}

impl CreditLineContract {
    /// The loan id at position `i` of `b`'s index.
    pub open spec fn index_entry(self, b: Address, i: int) -> u64 {
        spec_index_entry(self.user_loan_at@, b, i)
    }

    /// Position `i` of `b`'s index names a stored loan of `b`.
    pub open spec fn index_ok(self, b: Address, i: int) -> bool {
        &&& self.user_loan_at@.contains_key(spec_pair_key(b, i as u64))
        &&& self.loans@.contains_key(self.index_entry(b, i))
        &&& self.loans@[self.index_entry(b, i)].borrower == b
    }

    /// The debt ledger is consistent: each borrower's index lists every loan
    /// of the borrower exactly once, and the recorded active debt is the sum
    /// of the balances of the borrower's active loans.
    pub open spec fn debt_tracked(self) -> bool {
        &&& forall|b: Address, i: int|
            0 <= i < self.spec_loan_count(b) ==> #[trigger] self.index_ok(b, i)
        &&& forall|b: Address| #[trigger]
            spec_index_distinct(self.user_loan_at@, b, self.spec_loan_count(b) as int)
        &&& forall|id: u64|
            #[trigger] self.loans@.contains_key(id) ==> spec_listed(
                self.user_loan_at@,
                self.loans@[id].borrower,
                self.spec_loan_count(self.loans@[id].borrower) as int,
                id,
            )
        &&& forall|b: Address|
            #[trigger] self.spec_active_debt(b) == spec_debt_sum(
                self.loans@,
                self.user_loan_at@,
                b,
                self.spec_loan_count(b) as int,
            )
    }

    /// The ledger of a contract with no loans and no debts is consistent.
    pub proof fn lemma_empty_ledger(self)
        requires
            self.loans@ == Map::<u64, Loan>::empty(),
            self.user_loan_count@ == Map::<Address, u64>::empty(),
            self.user_active_debt@ == Map::<Address, i128>::empty(),
        ensures
            self.debt_tracked(),
    {
        assert forall|b: Address| #[trigger] spec_index_distinct(
            self.user_loan_at@,
            b,
            self.spec_loan_count(b) as int,
        ) by {}
    }

    /// Well-formedness depends on the loans, the counter, the index and the
    /// debts alone: an operation that leaves them as they were (the
    /// configuration setters, pausing, upgrading), or only moves the counter
    /// forward, keeps the contract well formed.
    pub proof fn lemma_ledger_frame_keeps_wf(self, old: Self)
        requires
            old.wf(),
            self.ledger_eq(old),
            self.loan_counter >= old.loan_counter,
        ensures
            self.wf(),
    {
        assert forall|id: u64| #[trigger] self.loans@.contains_key(id) implies {
            &&& 1 <= id <= self.loan_counter
            &&& self.loans@[id].loan_id == id
            &&& loan_balanced(self.loans@[id])
        } by {
            assert(old.loans@[id] == self.loans@[id]);
        }
        assert forall|b: Address, i: int| 0 <= i < self.spec_loan_count(b) implies #[trigger]
            self.index_ok(b, i) by {
            assert(old.index_ok(b, i));
        }
        assert forall|b: Address| #[trigger]
            spec_index_distinct(self.user_loan_at@, b, self.spec_loan_count(b) as int) by {
            assert(spec_index_distinct(old.user_loan_at@, b, old.spec_loan_count(b) as int));
        }
        assert forall|b: Address| #[trigger]
            self.spec_active_debt(b) == spec_debt_sum(
                self.loans@,
                self.user_loan_at@,
                b,
                self.spec_loan_count(b) as int,
            ) by {
            assert(old.spec_active_debt(b) == spec_debt_sum(
                old.loans@,
                old.user_loan_at@,
                b,
                old.spec_loan_count(b) as int,
            ));
        }
    }

    /// Changing the stored loan `id0` (same borrower, same index) and moving
    /// the borrower's debt by the change of what the loan adds to it keeps
    /// the ledger consistent.
    pub proof fn lemma_update_keeps_ledger(self, old: Self, id0: u64)
        requires
            old.debt_tracked(),
            old.loans@.contains_key(id0),
            self.loans@ == old.loans@.insert(id0, self.loans@[id0]),
            self.loans@[id0].borrower == old.loans@[id0].borrower,
            self.user_loan_count@ == old.user_loan_count@,
            self.user_loan_at@ == old.user_loan_at@,
            forall|x: Address|
                #[trigger] self.spec_active_debt(x) == old.spec_active_debt(x) + if x
                    == old.loans@[id0].borrower {
                    spec_loan_debt(self.loans@, id0) - spec_loan_debt(old.loans@, id0)
                } else {
                    0
                },
        ensures
            self.debt_tracked(),
    {
        let b0 = old.loans@[id0].borrower;
        assert forall|b: Address, i: int| 0 <= i < self.spec_loan_count(b) implies #[trigger]
            self.index_ok(b, i) by {
            assert(old.index_ok(b, i));
        }
        assert forall|b: Address| #[trigger]
            spec_index_distinct(self.user_loan_at@, b, self.spec_loan_count(b) as int) by {
            assert(spec_index_distinct(old.user_loan_at@, b, old.spec_loan_count(b) as int));
        }
        assert forall|id: u64| #[trigger] self.loans@.contains_key(id) implies spec_listed(
            self.user_loan_at@,
            self.loans@[id].borrower,
            self.spec_loan_count(self.loans@[id].borrower) as int,
            id,
        ) by {
            assert(old.loans@.contains_key(id));
        }
        assert forall|id: u64| id != id0 implies #[trigger] spec_loan_debt(self.loans@, id)
            == spec_loan_debt(old.loans@, id) by {}
        assert forall|b: Address| #[trigger]
            self.spec_active_debt(b) == spec_debt_sum(
                self.loans@,
                self.user_loan_at@,
                b,
                self.spec_loan_count(b) as int,
            ) by {
            let n = old.spec_loan_count(b) as int;
            assert(old.spec_active_debt(b) == spec_debt_sum(old.loans@, old.user_loan_at@, b, n));
            assert(spec_index_distinct(old.user_loan_at@, b, n));
            lemma_debt_sum_update(old.loans@, self.loans@, old.user_loan_at@, b, n, id0);
            if b == b0 {
                assert(old.loans@.contains_key(id0));
            } else {
                assert(!spec_listed(old.user_loan_at@, b, n, id0)) by {
                    if spec_listed(old.user_loan_at@, b, n, id0) {
                        let i = choose|i: int|
                            0 <= i < n && #[trigger] spec_index_entry(old.user_loan_at@, b, i) == id0;
                        assert(old.index_ok(b, i));
                    }
                }
            }
        }
    }

    /// Storing a new loan `id` at the end of its borrower's index and adding
    /// what it adds to the borrower's debt keeps the ledger consistent.
    pub proof fn lemma_append_keeps_ledger(self, old: Self, id: u64)
        requires
            old.debt_tracked(),
            !old.loans@.contains_key(id),
            self.loans@ == old.loans@.insert(id, self.loans@[id]),
            old.spec_loan_count(self.loans@[id].borrower) < u64::MAX,
            old.index_appended(self, self.loans@[id].borrower, id),
            forall|x: Address|
                #[trigger] self.spec_active_debt(x) == old.spec_active_debt(x) + if x
                    == self.loans@[id].borrower {
                    spec_loan_debt(self.loans@, id)
                } else {
                    0
                },
        ensures
            self.debt_tracked(),
    {
        let b0 = self.loans@[id].borrower;
        let n0 = old.spec_loan_count(b0) as int;
        let k0 = spec_pair_key(b0, n0 as u64);
        assert(self.spec_loan_count(b0) == n0 + 1);
        assert forall|b: Address, i: int| 0 <= i < old.spec_loan_count(b) implies #[trigger]
            self.index_entry(b, i) == old.index_entry(b, i) by {
            lemma_pair_key_injective(b, i as u64, b0, n0 as u64);
        }
        assert forall|b: Address, i: int| 0 <= i < self.spec_loan_count(b) implies #[trigger]
            self.index_ok(b, i) by {
            if b == b0 && i == n0 {
            } else {
                assert(old.index_ok(b, i));
                assert(self.index_entry(b, i) == old.index_entry(b, i));
            }
        }
        assert forall|b: Address| #[trigger]
            spec_index_distinct(self.user_loan_at@, b, self.spec_loan_count(b) as int) by {
            let n = old.spec_loan_count(b) as int;
            assert(spec_index_distinct(old.user_loan_at@, b, n));
            assert forall|i: int, j: int|
                0 <= i < j < self.spec_loan_count(b) implies #[trigger] spec_index_entry(
                self.user_loan_at@,
                b,
                i,
            ) != #[trigger] spec_index_entry(self.user_loan_at@, b, j) by {
                assert(self.index_entry(b, i) == old.index_entry(b, i));
                if b == b0 && j == n0 {
                    assert(old.index_ok(b, i));
                } else {
                    assert(self.index_entry(b, j) == old.index_entry(b, j));
                }
            }
        }
        assert forall|x: u64| #[trigger] self.loans@.contains_key(x) implies spec_listed(
            self.user_loan_at@,
            self.loans@[x].borrower,
            self.spec_loan_count(self.loans@[x].borrower) as int,
            x,
        ) by {
            if x == id {
                assert(spec_index_entry(self.user_loan_at@, b0, n0) == id);
            } else {
                let bx = old.loans@[x].borrower;
                assert(old.loans@.contains_key(x));
                let i = choose|i: int|
                    0 <= i < old.spec_loan_count(bx) && #[trigger] spec_index_entry(
                        old.user_loan_at@,
                        bx,
                        i,
                    ) == x;
                assert(self.index_entry(bx, i) == old.index_entry(bx, i));
            }
        }
        assert forall|b: Address| #[trigger]
            self.spec_active_debt(b) == spec_debt_sum(
                self.loans@,
                self.user_loan_at@,
                b,
                self.spec_loan_count(b) as int,
            ) by {
            let n = old.spec_loan_count(b) as int;
            assert(old.spec_active_debt(b) == spec_debt_sum(old.loans@, old.user_loan_at@, b, n));
            assert forall|i: int| 0 <= i < n implies #[trigger] spec_loan_debt(
                self.loans@,
                spec_index_entry(self.user_loan_at@, b, i),
            ) == spec_loan_debt(old.loans@, spec_index_entry(old.user_loan_at@, b, i)) by {
                assert(self.index_entry(b, i) == old.index_entry(b, i));
                assert(old.index_ok(b, i));
            }
            lemma_debt_sum_frame(old.loans@, old.user_loan_at@, self.loans@, self.user_loan_at@, b, n);
            if b == b0 {
                assert(spec_index_entry(self.user_loan_at@, b0, n0) == id);
            }
        }
    }
}

} // verus!
