use vstd::prelude::*;
use super::errors::CreditLineError;
use super::rules::spec_default_penalty;
use crate::Address;
use super::ledger::spec_loan_debt;
use super::storage::CreditLineContract;
use super::types::{loan_balanced, DefaultReceipt, GraceWarning, Loan, LoanStatus, ProtocolParameters};

verus! {

impl CreditLineContract {
    /// Where `now` falls relative to the last due date and its grace window
    /// (`Err` when the loan is missing, inactive, has no schedule, is not yet
    /// due, or the window end overflows); the window end when overdue.
    pub open spec fn spec_overdue_window(
        self,
        loan_id: u64,
        now: u64,
        params: ProtocolParameters,
    ) -> Result<u64, CreditLineError> {
        if !self.loans@.contains_key(loan_id) {
            Err(CreditLineError::LoanNotFound)
        } else {
            let loan = self.loans@[loan_id];
            let s = loan.repayment_schedule@;
            if loan.status != LoanStatus::Active {
                Err(CreditLineError::LoanNotActive)
            } else if s.len() == 0 {
                Err(CreditLineError::Overflow)
            } else if now <= s.last().due_date {
                Err(CreditLineError::LoanNotOverdue)
            } else if s.last().due_date + params.grace_period_seconds > u64::MAX {
                Err(CreditLineError::Overflow)
            } else {
                Ok((s.last().due_date + params.grace_period_seconds) as u64)
            }
        }
    }

    /// Last due date and end of its grace window.
    fn overdue_window(&self, loan_id: u64, now: u64, params: &ProtocolParameters) -> (r: Result<
        u64,
        CreditLineError,
    >)
        ensures
            r == self.spec_overdue_window(loan_id, now, *params),
    {
        let loan = self.read_loan(loan_id)?;
        if loan.status != LoanStatus::Active {
            return Err(CreditLineError::LoanNotActive);
        }
        let n = loan.repayment_schedule.len();
        if n == 0 {
            return Err(CreditLineError::Overflow);
        }
        let due_date = loan.repayment_schedule[n - 1].due_date;
        if now <= due_date {
            return Err(CreditLineError::LoanNotOverdue);
        }
        match due_date.checked_add(params.grace_period_seconds) {
            Some(end) => Ok(end),
            None => Err(CreditLineError::Overflow),
        }
    }

    /// Outcome of `warn_grace_period`.
    pub open spec fn spec_warn_grace_period(
        self,
        loan_id: u64,
        now: u64,
        params: ProtocolParameters,
    ) -> Result<u64, CreditLineError> {
        if self.paused {
            Err(CreditLineError::ContractPaused)
        } else {
            match self.spec_overdue_window(loan_id, now, params) {
                Err(e) => Err(e),
                Ok(end) => if now > end {
                    Err(CreditLineError::LoanNotOverdue)
                } else {
                    Ok(end)
                },
            }
        }
    }

    /// Succeeds, with the warning to publish, exactly when the active loan
    /// is past its last due date but still inside the grace window.
    pub fn warn_grace_period(&self, loan_id: u64, now: u64, params: &ProtocolParameters) -> (r:
        Result<GraceWarning, CreditLineError>)
        ensures
            ({
                let c = self.spec_warn_grace_period(loan_id, now, *params);
                let loan = self.loans@[loan_id];
                &&& r is Ok <==> c is Ok
                &&& r is Err ==> r->Err_0 == c->Err_0
                &&& r is Ok ==> r->Ok_0 == GraceWarning {
                    borrower: loan.borrower,
                    loan_id,
                    remaining_balance: loan.remaining_balance,
                    grace_ends_at: c->Ok_0,
                }
            }),
    {
        if self.paused {
            return Err(CreditLineError::ContractPaused);
        }
        let grace_ends_at = self.overdue_window(loan_id, now, params)?;
        if now > grace_ends_at {
            return Err(CreditLineError::LoanNotOverdue);
        }
        let loan = self.read_loan(loan_id)?;
        Ok(
            GraceWarning {
                borrower: loan.borrower,
                loan_id,
                remaining_balance: loan.remaining_balance,
                grace_ends_at,
            },
        )
    }

    /// Outcome of `mark_defaulted`'s checks.
    pub open spec fn spec_mark_defaulted(
        self,
        loan_id: u64,
        now: u64,
        params: ProtocolParameters,
    ) -> Result<(), CreditLineError> {
        if self.paused {
            Err(CreditLineError::ContractPaused)
        } else {
            match self.spec_overdue_window(loan_id, now, params) {
                Err(e) => Err(e),
                Ok(end) => {
                    let loan = self.loans@[loan_id];
                    if now <= end {
                        Err(CreditLineError::LoanInGracePeriod)
                    } else if self.liquidity_pool is None {
                        Err(CreditLineError::InsufficientLiquidity)
                    } else if self.reentrancy_locked {
                        Err(CreditLineError::ReentrancyDetected)
                    } else if !(i128::MIN <= self.spec_active_debt(loan.borrower)
                        - loan.remaining_balance) {
                        Err(CreditLineError::Underflow)
                    } else if self.token is None {
                        Err(CreditLineError::TokenNotConfigured)
                    } else if !(i128::MIN <= loan.principal_outstanding - loan.guarantee_amount
                        <= i128::MAX) {
                        Err(CreditLineError::Underflow)
                    } else {
                        Ok(())
                    }
                },
            }
        }
    }

    /// Marks an active loan defaulted once its grace window after the last
    /// due date has passed. Its balance leaves the borrower's debt; the
    /// receipt lists the guarantee forwarded to the pool, the unrecovered
    /// principal (principal outstanding beyond the guarantee) the pool
    /// absorbs, and the reputation penalty requested (the large-loan penalty
    /// above the large-loan threshold).
    pub fn mark_defaulted(&mut self, loan_id: u64, now: u64, params: &ProtocolParameters) -> (r:
        Result<DefaultReceipt, CreditLineError>)
        requires
            old(self).wf(),
        ensures
            final(self).wf(),
            ({
                let c = old(self).spec_mark_defaulted(loan_id, now, *params);
                let loan = old(self).loans@[loan_id];
                let shortfall = loan.principal_outstanding - loan.guarantee_amount;
                &&& r is Ok <==> c is Ok
                &&& r is Err ==> r->Err_0 == c->Err_0 && *final(self) == *old(self)
                &&& r is Ok ==> {
                    &&& r->Ok_0 == DefaultReceipt {
                        borrower: loan.borrower,
                        guarantee_forfeited: loan.guarantee_amount,
                        principal_shortfall: if shortfall > 0 {
                            shortfall as i128
                        } else {
                            0
                        },
                        reputation_penalty: if old(self).reputation_contract is Some {
                            Some(spec_default_penalty(loan.total_amount, *params))
                        } else {
                            None
                        },
                    }
                    &&& old(self).reputation_contract is Some ==> r->Ok_0.reputation_penalty
                        == Some(
                        if loan.total_amount > params.large_loan_threshold {
                            params.large_loan_default_penalty
                        } else {
                            params.default_penalty
                        },
                    )
                    &&& final(self).loans@ == old(self).loans@.insert(
                        loan_id,
                        Loan { status: LoanStatus::Defaulted, ..loan },
                    )
                    &&& final(self).user_active_debt@ == old(self).user_active_debt@.insert(
                        loan.borrower,
                        (old(self).spec_active_debt(loan.borrower) - loan.remaining_balance) as i128,
                    )
                    &&& final(self).user_loan_count@ == old(self).user_loan_count@
                    &&& final(self).user_loan_at@ == old(self).user_loan_at@
                    &&& final(self).loan_counter == old(self).loan_counter
                    &&& final(self).settings_eq(*old(self))
                }
            }),
    {
        if self.paused {
            return Err(CreditLineError::ContractPaused);
        }
        let grace_ends_at = self.overdue_window(loan_id, now, params)?;
        if now <= grace_ends_at {
            return Err(CreditLineError::LoanInGracePeriod);
        }
        if self.liquidity_pool.is_none() {
            return Err(CreditLineError::InsufficientLiquidity);
        }
        if self.reentrancy_locked {
            return Err(CreditLineError::ReentrancyDetected);
        }
        let (borrower, remaining_balance, guarantee, principal, penalty) = {
            let loan = self.read_loan(loan_id)?;
            (
                loan.borrower,
                loan.remaining_balance,
                loan.guarantee_amount,
                loan.principal_outstanding,
                Self::calculate_default_penalty(params, loan),
            )
        };
        let debt = self.get_user_active_debt(borrower);
        let new_debt = match debt.checked_sub(remaining_balance) {
            Some(d) => d,
            None => {
                return Err(CreditLineError::Underflow);
            },
        };
        if self.token.is_none() {
            return Err(CreditLineError::TokenNotConfigured);
        }
        let shortfall = match principal.checked_sub(guarantee) {
            Some(s) => s,
            None => {
                return Err(CreditLineError::Underflow);
            },
        };
        let ghost loan0 = self.loans@[loan_id];
        self.user_active_debt.insert(borrower, new_debt);
        let mut loan = self.loans.remove(&loan_id).unwrap();
        loan.status = LoanStatus::Defaulted;
        self.loans.insert(loan_id, loan);
        proof {
            assert forall|id: u64| #[trigger] self.loans@.contains_key(id) implies {
                &&& 1 <= id <= self.loan_counter
                &&& self.loans@[id].loan_id == id
                &&& loan_balanced(self.loans@[id])
            } by {
                assert(old(self).loans@.contains_key(id));
                assert(old(self).loans@[id].loan_id == id);
            }
            assert(self.loans@ =~= old(self).loans@.insert(
                loan_id,
                Loan { status: LoanStatus::Defaulted, ..loan0 },
            ));
            assert forall|x: Address| #[trigger] self.spec_active_debt(x) == old(self).spec_active_debt(x)
                + if x == loan0.borrower {
                spec_loan_debt(self.loans@, loan_id) - spec_loan_debt(old(self).loans@, loan_id)
            } else {
                0
            } by {}
            self.lemma_update_keeps_ledger(*old(self), loan_id);
        }
        Ok(
            DefaultReceipt {
                borrower,
                guarantee_forfeited: guarantee,
                principal_shortfall: if shortfall > 0 {
                    shortfall
                } else {
                    0
                },
                reputation_penalty: if self.reputation_contract.is_some() {
                    Some(penalty)
                } else {
                    None
                },
            },
        )
    }
}

/// A loan inside its grace window cannot be defaulted: whenever a grace
/// warning can be issued, marking the same loan defaulted at the same time
/// fails with `LoanInGracePeriod`.
pub proof fn lemma_grace_blocks_default(
    c: CreditLineContract,
    loan_id: u64,
    now: u64,
    params: ProtocolParameters,
)
    requires
        c.spec_warn_grace_period(loan_id, now, params) is Ok,
    ensures
        c.spec_mark_defaulted(loan_id, now, params) == Err::<(), CreditLineError>(
            CreditLineError::LoanInGracePeriod,
        ),
{
}

/// Once a loan can be defaulted, its grace window is over: a grace warning
/// at the same time fails with `LoanNotOverdue`.
pub proof fn lemma_default_after_grace(
    c: CreditLineContract,
    loan_id: u64,
    now: u64,
    params: ProtocolParameters,
)
    requires
        c.spec_mark_defaulted(loan_id, now, params) is Ok,
    ensures
        c.spec_warn_grace_period(loan_id, now, params) == Err::<u64, CreditLineError>(
            CreditLineError::LoanNotOverdue,
        ),
{
}

} // verus!
