use vstd::prelude::*;
use crate::Address;
use super::errors::CreditLineError;
use super::rules::{
    interest_rate_bps, loan_charges, spec_credit_limit, spec_interest_rate_bps,
    spec_loan_charges, spec_validate_guarantee, validate_guarantee,
};
use super::ledger::spec_loan_debt;
use super::storage::CreditLineContract;
use super::types::{
    loan_balanced, Loan, LoanFunding, LoanStatus, LoanType, ProtocolParameters,
    RepaymentInstallment,
};

verus! {

/// Rate, interest, service fee and balance of a loan being built.
pub struct LoanTerms {
    pub interest_rate_bps: u32,
    pub interest_amount: i128,
    pub service_fee_amount: i128,
    pub remaining_balance: i128,
}

impl CreditLineContract {
    /// The checks `build_loan` performs, in order, and the terms it settles on.
    pub open spec fn spec_build_loan(
        self,
        user: Address,
        total_amount: i128,
        guarantee_amount: i128,
        score: u32,
        params: ProtocolParameters,
        vendor_active: Option<bool>,
    ) -> Result<(u32, i128, i128, i128), CreditLineError> {
        match spec_validate_guarantee(total_amount, guarantee_amount, params) {
            Err(e) => Err(e),
            Ok(_) => match self.spec_validate_vendor(vendor_active) {
                Err(e) => Err(e),
                Ok(_) => {
                    let rate = spec_interest_rate_bps(params.base_interest_bps, score);
                    match spec_loan_charges(total_amount, rate) {
                        Err(e) => Err(e),
                        Ok(charges) => match self.spec_active_debt(user).checked_add(charges.2) {
                            None => Err(CreditLineError::Overflow),
                            Some(next_debt) => if next_debt > spec_credit_limit(score) {
                                Err(CreditLineError::ExposureLimitExceeded)
                            } else if self.loan_counter == u64::MAX {
                                Err(CreditLineError::Overflow)
                            } else {
                                Ok((rate, charges.0, charges.1, charges.2))
                            },
                        },
                    }
                },
            },
        }
    }

    /// The loan record `build_loan` produces from settled terms.
    pub open spec fn spec_new_loan(
        self,
        user: Address,
        vendor: Address,
        total_amount: i128,
        guarantee_amount: i128,
        repayment_schedule: Vec<RepaymentInstallment>,
        terms: (u32, i128, i128, i128),
        status: LoanStatus,
        loan_type: LoanType,
        now: u64,
    ) -> Loan {
        Loan {
            loan_id: (self.loan_counter + 1) as u64,
            borrower: user,
            vendor,
            total_amount,
            guarantee_amount,
            interest_rate_bps: terms.0,
            interest_amount: terms.1,
            service_fee_amount: terms.2,
            principal_outstanding: total_amount,
            interest_outstanding: terms.1,
            service_fee_outstanding: terms.2,
            remaining_balance: terms.3,
            repayment_schedule,
            status,
            loan_type,
            created_at: now,
            funded_at: 0,
            late_fees_outstanding: 0,
            late_fee_accrual_timestamp: 0,
        }
    }

    /// Validates a loan request and prices it: rate from the borrower's
    /// score, interest and a 1% service fee on the amount, and the borrower's
    /// debt after the loan must stay within the credit limit of the score.
    /// On success the loan counter advances and the record carries the new
    /// id; on refusal nothing changes. Storage other than the counter is left
    /// as it was: the caller stores the record.
    pub fn build_loan(
        &mut self,
        user: Address,
        vendor: Address,
        total_amount: i128,
        guarantee_amount: i128,
        repayment_schedule: Vec<RepaymentInstallment>,
        score: u32,
        status: LoanStatus,
        loan_type: LoanType,
        now: u64,
        params: &ProtocolParameters,
        vendor_active: Option<bool>,
    ) -> (r: Result<Loan, CreditLineError>)
        ensures
            ({
                let b = old(self).spec_build_loan(
                    user,
                    total_amount,
                    guarantee_amount,
                    score,
                    *params,
                    vendor_active,
                );
                &&& r is Ok <==> b is Ok
                &&& r is Err ==> r->Err_0 == b->Err_0 && *final(self) == *old(self)
                &&& r is Ok ==> final(self).loan_counter == old(self).loan_counter + 1
                &&& r is Ok ==> r->Ok_0.loan_id == final(self).loan_counter
                &&& *final(self) == (CreditLineContract {
                    loan_counter: final(self).loan_counter,
                    ..*old(self)
                })
                &&& r is Ok ==> r->Ok_0 == old(self).spec_new_loan(
                    user,
                    vendor,
                    total_amount,
                    guarantee_amount,
                    repayment_schedule,
                    b->Ok_0,
                    status,
                    loan_type,
                    now,
                )
            }),
    {
        validate_guarantee(total_amount, guarantee_amount, params)?;
        self.validate_vendor(vendor_active)?;
        let rate = interest_rate_bps(params, score);
        let (interest_amount, service_fee_amount, remaining_balance) = loan_charges(
            total_amount,
            rate,
        )?;
        let credit_limit = Self::credit_limit(score);
        let active_debt = self.get_user_active_debt(user);
        let next_debt = match active_debt.checked_add(remaining_balance) {
            Some(d) => d,
            None => {
                return Err(CreditLineError::Overflow);
            },
        };
        if next_debt > credit_limit {
            return Err(CreditLineError::ExposureLimitExceeded);
        }
        if self.loan_counter == u64::MAX {
            return Err(CreditLineError::Overflow);
        }
        self.loan_counter = self.loan_counter + 1;
        let loan_id = self.loan_counter;
        Ok(
            Loan {
                loan_id,
                borrower: user,
                vendor,
                total_amount,
                guarantee_amount,
                interest_rate_bps: rate,
                interest_amount,
                service_fee_amount,
                principal_outstanding: total_amount,
                interest_outstanding: interest_amount,
                service_fee_outstanding: service_fee_amount,
                remaining_balance,
                repayment_schedule,
                status,
                loan_type,
                created_at: now,
                funded_at: 0,
                late_fees_outstanding: 0,
                late_fee_accrual_timestamp: 0,
            },
        )
    }

    /// Stores a freshly built loan, whose id the counter already holds: the
    /// id joins the borrower's index.
    fn commit_new_loan(&mut self, loan: Loan)
        requires
            old(self).loans_wf(),
            loan.loan_id == old(self).loan_counter,
            1 <= loan.loan_id,
            !old(self).loans@.contains_key(loan.loan_id),
            loan_balanced(loan),
            old(self).spec_loan_count(loan.borrower) < u64::MAX,
        ensures
            final(self).loans_wf(),
            final(self).loan_counter == loan.loan_id,
            final(self).loans@ == old(self).loans@.insert(loan.loan_id, loan),
            old(self).index_appended(*final(self), loan.borrower, loan.loan_id),
            final(self).user_active_debt@ == old(self).user_active_debt@,
            final(self).settings_eq(*old(self)),
    {
        let r = self.write_loan(loan);
        proof {
            assert forall|id: u64| #[trigger] self.loans@.contains_key(id) implies {
                &&& 1 <= id <= self.loan_counter
                &&& self.loans@[id].loan_id == id
                &&& loan_balanced(self.loans@[id])
            } by {
                if id != loan.loan_id {
                    assert(old(self).loans@.contains_key(id));
                    assert(old(self).loans@[id].loan_id == id);
                }
            }
        }
    }

    /// Every check `create_loan` performs, in order.
    pub open spec fn spec_create_loan(
        self,
        user: Address,
        total_amount: i128,
        guarantee_amount: i128,
        params: ProtocolParameters,
        score: u32,
        vendor_active: Option<bool>,
        pool_available: i128,
    ) -> Result<(u32, i128, i128, i128), CreditLineError> {
        if self.paused {
            Err(CreditLineError::ContractPaused)
        } else if spec_validate_guarantee(total_amount, guarantee_amount, params) is Err {
            Err(spec_validate_guarantee(total_amount, guarantee_amount, params)->Err_0)
        } else if self.spec_validate_vendor(vendor_active) is Err {
            Err(self.spec_validate_vendor(vendor_active)->Err_0)
        } else if self.spec_validate_reputation(score, params) is Err {
            Err(self.spec_validate_reputation(score, params)->Err_0)
        } else if self.spec_validate_liquidity(total_amount, guarantee_amount, pool_available) is Err {
            Err(self.spec_validate_liquidity(total_amount, guarantee_amount, pool_available)->Err_0)
        } else if self.reentrancy_locked {
            Err(CreditLineError::ReentrancyDetected)
        } else {
            match self.spec_build_loan(
                user,
                total_amount,
                guarantee_amount,
                score,
                params,
                vendor_active,
            ) {
                Err(e) => Err(e),
                Ok(terms) => if self.spec_loan_count(user) == u64::MAX {
                    Err(CreditLineError::Overflow)
                } else if self.token is None {
                    Err(CreditLineError::TokenNotConfigured)
                } else {
                    Ok(terms)
                },
            }
        }
    }

    /// Opens an active loan: validates the guarantee, the vendor, the
    /// borrower's reputation and the pool's liquidity, records the loan as
    /// funded at `now`, adds its balance to the borrower's debt, and returns
    /// the token movements owed: the guarantee from the borrower into the
    /// credit line and `total - guarantee` from the pool to the vendor.
    ///
    /// `params` are the parameters in force, `score` the borrower's
    /// reputation, `vendor_active` the registry's reply about the vendor
    /// (`None` when the call failed) and `pool_available` the pool's
    /// available liquidity.
    pub fn create_loan(
        &mut self,
        user: Address,
        vendor: Address,
        total_amount: i128,
        guarantee_amount: i128,
        repayment_schedule: Vec<RepaymentInstallment>,
        loan_type: LoanType,
        now: u64,
        params: &ProtocolParameters,
        score: u32,
        vendor_active: Option<bool>,
        pool_available: i128,
    ) -> (r: Result<LoanFunding, CreditLineError>)
        requires
            old(self).wf(),
        ensures
            final(self).wf(),
            ({
                let c = old(self).spec_create_loan(
                    user,
                    total_amount,
                    guarantee_amount,
                    *params,
                    score,
                    vendor_active,
                    pool_available,
                );
                let id = (old(self).loan_counter + 1) as u64;
                let loan = Loan {
                    funded_at: now,
                    ..old(self).spec_new_loan(
                        user,
                        vendor,
                        total_amount,
                        guarantee_amount,
                        repayment_schedule,
                        c->Ok_0,
                        LoanStatus::Active,
                        loan_type,
                        now,
                    )
                };
                &&& r is Ok <==> c is Ok
                &&& r is Err ==> r->Err_0 == c->Err_0 && *final(self) == *old(self)
                &&& r is Ok ==> {
                    &&& r->Ok_0 == LoanFunding {
                        loan_id: id,
                        guarantee_pulled: guarantee_amount,
                        pool_contribution: (total_amount - guarantee_amount) as i128,
                    }
                    &&& final(self).loan_counter == id
                    &&& final(self).loans@ == old(self).loans@.insert(id, loan)
                    &&& old(self).index_appended(*final(self), user, id)
                    &&& final(self).user_active_debt@ == old(self).user_active_debt@.insert(
                        user,
                        (old(self).spec_active_debt(user) + c->Ok_0.3) as i128,
                    )
                    &&& final(self).settings_eq(*old(self))
                }
            }),
    {
        if self.paused {
            return Err(CreditLineError::ContractPaused);
        }
        validate_guarantee(total_amount, guarantee_amount, params)?;
        self.validate_vendor(vendor_active)?;
        let score = self.validate_reputation(score, params)?;
        self.validate_liquidity(total_amount, guarantee_amount, pool_available)?;
        if self.reentrancy_locked {
            return Err(CreditLineError::ReentrancyDetected);
        }
        let counter_before = self.loan_counter;
        let mut loan = self.build_loan(
            user,
            vendor,
            total_amount,
            guarantee_amount,
            repayment_schedule,
            score,
            LoanStatus::Active,
            loan_type,
            now,
            params,
            vendor_active,
        )?;
        loan.funded_at = now;
        proof {
            assert(!old(self).loans@.contains_key(loan.loan_id)) by {
                if old(self).loans@.contains_key(loan.loan_id) {
                    assert(old(self).loans@[loan.loan_id].loan_id == loan.loan_id);
                }
            }
        }
        if self.get_user_loan_count(user) == u64::MAX {
            self.loan_counter = counter_before;
            return Err(CreditLineError::Overflow);
        }
        if self.token.is_none() {
            self.loan_counter = counter_before;
            return Err(CreditLineError::TokenNotConfigured);
        }
        let loan_id = loan.loan_id;
        let debt = loan.remaining_balance;
        let r = self.increase_user_active_debt(user, debt);
        self.commit_new_loan(loan);
        proof {
            assert(!old(self).loans@.contains_key(loan_id)) by {
                if old(self).loans@.contains_key(loan_id) {
                    assert(old(self).loans@[loan_id].loan_id == loan_id);
                }
            }
            assert forall|x: Address| #[trigger] self.spec_active_debt(x) == old(self).spec_active_debt(x)
                + if x == user {
                spec_loan_debt(self.loans@, loan_id)
            } else {
                0
            } by {}
            self.lemma_append_keeps_ledger(*old(self), loan_id);
        }
        Ok(
            LoanFunding {
                loan_id,
                guarantee_pulled: guarantee_amount,
                pool_contribution: total_amount - guarantee_amount,
            },
        )
    }

    /// Every check `request_loan` performs, in order.
    pub open spec fn spec_request_loan(
        self,
        user: Address,
        total_amount: i128,
        guarantee_amount: i128,
        params: ProtocolParameters,
        score: u32,
        vendor_active: Option<bool>,
    ) -> Result<(u32, i128, i128, i128), CreditLineError> {
        if self.paused {
            Err(CreditLineError::ContractPaused)
        } else if spec_validate_guarantee(total_amount, guarantee_amount, params) is Err {
            Err(spec_validate_guarantee(total_amount, guarantee_amount, params)->Err_0)
        } else if self.spec_validate_reputation(score, params) is Err {
            Err(self.spec_validate_reputation(score, params)->Err_0)
        } else {
            match self.spec_build_loan(
                user,
                total_amount,
                guarantee_amount,
                score,
                params,
                vendor_active,
            ) {
                Err(e) => Err(e),
                Ok(terms) => if self.token is None {
                    Err(CreditLineError::TokenNotConfigured)
                } else if self.spec_loan_count(user) == u64::MAX {
                    Err(CreditLineError::Overflow)
                } else {
                    Ok(terms)
                },
            }
        }
    }

    /// Records a pending loan awaiting admin approval. The guarantee is
    /// collected from the borrower now; the borrower's debt is untouched until
    /// approval.
    pub fn request_loan(
        &mut self,
        user: Address,
        vendor: Address,
        total_amount: i128,
        guarantee_amount: i128,
        repayment_schedule: Vec<RepaymentInstallment>,
        loan_type: LoanType,
        now: u64,
        params: &ProtocolParameters,
        score: u32,
        vendor_active: Option<bool>,
    ) -> (r: Result<LoanFunding, CreditLineError>)
        requires
            old(self).wf(),
        ensures
            final(self).wf(),
            ({
                let c = old(self).spec_request_loan(
                    user,
                    total_amount,
                    guarantee_amount,
                    *params,
                    score,
                    vendor_active,
                );
                let id = (old(self).loan_counter + 1) as u64;
                let loan = old(self).spec_new_loan(
                    user,
                    vendor,
                    total_amount,
                    guarantee_amount,
                    repayment_schedule,
                    c->Ok_0,
                    LoanStatus::Pending,
                    loan_type,
                    now,
                );
                &&& r is Ok <==> c is Ok
                &&& r is Err ==> r->Err_0 == c->Err_0 && *final(self) == *old(self)
                &&& r is Ok ==> {
                    &&& r->Ok_0 == LoanFunding {
                        loan_id: id,
                        guarantee_pulled: guarantee_amount,
                        pool_contribution: 0,
                    }
                    &&& final(self).loan_counter == id
                    &&& final(self).loans@ == old(self).loans@.insert(id, loan)
                    &&& old(self).index_appended(*final(self), user, id)
                    &&& final(self).user_active_debt@ == old(self).user_active_debt@
                    &&& final(self).settings_eq(*old(self))
                }
            }),
    {
        if self.paused {
            return Err(CreditLineError::ContractPaused);
        }
        validate_guarantee(total_amount, guarantee_amount, params)?;
        let score = self.validate_reputation(score, params)?;
        let counter_before = self.loan_counter;
        let loan = self.build_loan(
            user,
            vendor,
            total_amount,
            guarantee_amount,
            repayment_schedule,
            score,
            LoanStatus::Pending,
            loan_type,
            now,
            params,
            vendor_active,
        )?;
        proof {
            assert(!old(self).loans@.contains_key(loan.loan_id)) by {
                if old(self).loans@.contains_key(loan.loan_id) {
                    assert(old(self).loans@[loan.loan_id].loan_id == loan.loan_id);
                }
            }
        }
        if self.token.is_none() {
            self.loan_counter = counter_before;
            return Err(CreditLineError::TokenNotConfigured);
        }
        if self.get_user_loan_count(user) == u64::MAX {
            self.loan_counter = counter_before;
            return Err(CreditLineError::Overflow);
        }
        let loan_id = loan.loan_id;
        self.commit_new_loan(loan);
        proof {
            assert(!old(self).loans@.contains_key(loan_id)) by {
                if old(self).loans@.contains_key(loan_id) {
                    assert(old(self).loans@[loan_id].loan_id == loan_id);
                }
            }
            assert forall|x: Address| #[trigger] self.spec_active_debt(x) == old(self).spec_active_debt(x)
                + if x == user {
                spec_loan_debt(self.loans@, loan_id)
            } else {
                0
            } by {}
            self.lemma_append_keeps_ledger(*old(self), loan_id);
        }
        Ok(LoanFunding { loan_id, guarantee_pulled: guarantee_amount, pool_contribution: 0 })
    }

    /// Every check `approve_loan` performs, in order.
    pub open spec fn spec_approve_loan(
        self,
        loan_id: u64,
        params: ProtocolParameters,
        score: u32,
        vendor_active: Option<bool>,
        pool_available: i128,
    ) -> Result<(), CreditLineError> {
        if self.admin is None {
            Err(CreditLineError::NotInitialized)
        } else if self.paused {
            Err(CreditLineError::ContractPaused)
        } else if !self.loans@.contains_key(loan_id) {
            Err(CreditLineError::LoanNotFound)
        } else {
            let loan = self.loans@[loan_id];
            if loan.status != LoanStatus::Pending {
                Err(CreditLineError::InvalidLoanStatus)
            } else if self.spec_validate_vendor(vendor_active) is Err {
                Err(self.spec_validate_vendor(vendor_active)->Err_0)
            } else if self.spec_validate_reputation(score, params) is Err {
                Err(self.spec_validate_reputation(score, params)->Err_0)
            } else if self.spec_validate_liquidity(
                loan.total_amount,
                loan.guarantee_amount,
                pool_available,
            ) is Err {
                Err(
                    self.spec_validate_liquidity(
                        loan.total_amount,
                        loan.guarantee_amount,
                        pool_available,
                    )->Err_0,
                )
            } else if !(i128::MIN <= self.spec_active_debt(loan.borrower) + loan.remaining_balance
                <= i128::MAX) {
                Err(CreditLineError::Overflow)
            } else if self.token is None {
                Err(CreditLineError::TokenNotConfigured)
            } else {
                Ok(())
            }
        }
    }

    /// Admin approval of a pending loan. The vendor, the borrower's reputation
    /// and the pool's liquidity are checked again; the loan becomes active and
    /// funded at `now`, its balance joins the borrower's debt and the pool
    /// pays the vendor `total - guarantee` (the guarantee was collected at
    /// request time). Returns the funding owed.
    pub fn approve_loan(
        &mut self,
        loan_id: u64,
        now: u64,
        params: &ProtocolParameters,
        score: u32,
        vendor_active: Option<bool>,
        pool_available: i128,
    ) -> (r: Result<LoanFunding, CreditLineError>)
        requires
            old(self).wf(),
        ensures
            final(self).wf(),
            ({
                let c = old(self).spec_approve_loan(
                    loan_id,
                    *params,
                    score,
                    vendor_active,
                    pool_available,
                );
                let loan = old(self).loans@[loan_id];
                &&& r is Ok <==> c is Ok
                &&& r is Err ==> r->Err_0 == c->Err_0 && *final(self) == *old(self)
                &&& r is Ok ==> {
                    &&& r->Ok_0 == LoanFunding {
                        loan_id,
                        guarantee_pulled: 0,
                        pool_contribution: (loan.total_amount - loan.guarantee_amount) as i128,
                    }
                    &&& final(self).loans@ == old(self).loans@.insert(
                        loan_id,
                        Loan { status: LoanStatus::Active, funded_at: now, ..loan },
                    )
                    &&& final(self).user_active_debt@ == old(self).user_active_debt@.insert(
                        loan.borrower,
                        (old(self).spec_active_debt(loan.borrower) + loan.remaining_balance) as i128,
                    )
                    &&& final(self).user_loan_count@ == old(self).user_loan_count@
                    &&& final(self).user_loan_at@ == old(self).user_loan_at@
                    &&& final(self).loan_counter == old(self).loan_counter
                    &&& final(self).settings_eq(*old(self))
                }
            }),
    {
        let _admin = self.get_admin()?;
        if self.paused {
            return Err(CreditLineError::ContractPaused);
        }
        let (borrower, total_amount, guarantee_amount, remaining_balance) = {
            let loan = self.read_loan(loan_id)?;
            if loan.status != LoanStatus::Pending {
                return Err(CreditLineError::InvalidLoanStatus);
            }
            (loan.borrower, loan.total_amount, loan.guarantee_amount, loan.remaining_balance)
        };
        self.validate_vendor(vendor_active)?;
        let _score = self.validate_reputation(score, params)?;
        self.validate_liquidity(total_amount, guarantee_amount, pool_available)?;
        let debt = self.get_user_active_debt(borrower);
        if debt.checked_add(remaining_balance).is_none() {
            return Err(CreditLineError::Overflow);
        }
        if self.token.is_none() {
            return Err(CreditLineError::TokenNotConfigured);
        }
        let ghost old_loan = self.loans@[loan_id];
        let r = self.increase_user_active_debt(borrower, remaining_balance);
        let mut loan = self.loans.remove(&loan_id).unwrap();
        loan.status = LoanStatus::Active;
        loan.funded_at = now;
        self.loans.insert(loan_id, loan);
        proof {
            assert(self.loans@ =~= old(self).loans@.insert(
                loan_id,
                Loan { status: LoanStatus::Active, funded_at: now, ..old_loan },
            ));
            assert forall|id: u64| #[trigger] self.loans@.contains_key(id) implies {
                &&& 1 <= id <= self.loan_counter
                &&& self.loans@[id].loan_id == id
                &&& loan_balanced(self.loans@[id])
            } by {
                assert(old(self).loans@.contains_key(id));
                assert(old(self).loans@[id].loan_id == id);
            }
            assert forall|x: Address| #[trigger] self.spec_active_debt(x) == old(self).spec_active_debt(x)
                + if x == old_loan.borrower {
                spec_loan_debt(self.loans@, loan_id) - spec_loan_debt(old(self).loans@, loan_id)
            } else {
                0
            } by {}
            self.lemma_update_keeps_ledger(*old(self), loan_id);
        }
        Ok(
            LoanFunding {
                loan_id,
                guarantee_pulled: 0,
                pool_contribution: total_amount - guarantee_amount,
            },
        )
    }

    /// Every check `cancel_loan` performs, in order.
    pub open spec fn spec_cancel_loan(
        self,
        caller: Address,
        loan_id: u64,
        contract_balance: i128,
    ) -> Result<(), CreditLineError> {
        if self.paused {
            Err(CreditLineError::ContractPaused)
        } else if !self.loans@.contains_key(loan_id) {
            Err(CreditLineError::LoanNotFound)
        } else {
            let loan = self.loans@[loan_id];
            if loan.status != LoanStatus::Pending {
                Err(CreditLineError::LoanNotCancellable)
            } else if self.admin is None {
                Err(CreditLineError::NotInitialized)
            } else if caller != loan.borrower && caller != self.admin->Some_0 {
                Err(CreditLineError::UnauthorizedRepayer)
            } else if self.token is None {
                Err(CreditLineError::TokenNotConfigured)
            } else if contract_balance < loan.guarantee_amount {
                Err(CreditLineError::InsufficientRefundBalance)
            } else if self.reentrancy_locked {
                Err(CreditLineError::ReentrancyDetected)
            } else {
                Ok(())
            }
        }
    }

    /// Cancels a pending loan on behalf of its borrower or the admin and
    /// returns the guarantee refund owed to the borrower. `contract_balance`
    /// is the credit line's token balance; a balance below the guarantee
    /// refuses the cancellation.
    pub fn cancel_loan(&mut self, caller: Address, loan_id: u64, contract_balance: i128) -> (r:
        Result<(Address, i128), CreditLineError>)
        requires
            old(self).wf(),
        ensures
            final(self).wf(),
            ({
                let c = old(self).spec_cancel_loan(caller, loan_id, contract_balance);
                let loan = old(self).loans@[loan_id];
                &&& r is Ok <==> c is Ok
                &&& r is Err ==> r->Err_0 == c->Err_0 && *final(self) == *old(self)
                &&& r is Ok ==> {
                    &&& r->Ok_0 == (loan.borrower, loan.guarantee_amount)
                    &&& final(self).loans@ == old(self).loans@.insert(
                        loan_id,
                        Loan { status: LoanStatus::Cancelled, ..loan },
                    )
                    &&& final(self).ledger_eq_except_loans(*old(self))
                    &&& final(self).loan_counter == old(self).loan_counter
                    &&& final(self).settings_eq(*old(self))
                }
            }),
    {
        if self.paused {
            return Err(CreditLineError::ContractPaused);
        }
        let (borrower, guarantee_amount) = {
            let loan = self.read_loan(loan_id)?;
            if loan.status != LoanStatus::Pending {
                return Err(CreditLineError::LoanNotCancellable);
            }
            (loan.borrower, loan.guarantee_amount)
        };
        let admin = self.get_admin()?;
        if caller != borrower && caller != admin {
            return Err(CreditLineError::UnauthorizedRepayer);
        }
        if self.token.is_none() {
            return Err(CreditLineError::TokenNotConfigured);
        }
        if contract_balance < guarantee_amount {
            return Err(CreditLineError::InsufficientRefundBalance);
        }
        if self.reentrancy_locked {
            return Err(CreditLineError::ReentrancyDetected);
        }
        let ghost old_loan = self.loans@[loan_id];
        let mut loan = self.loans.remove(&loan_id).unwrap();
        loan.status = LoanStatus::Cancelled;
        self.loans.insert(loan_id, loan);
        proof {
            assert(self.loans@ =~= old(self).loans@.insert(
                loan_id,
                Loan { status: LoanStatus::Cancelled, ..old_loan },
            ));
            assert forall|id: u64| #[trigger] self.loans@.contains_key(id) implies {
                &&& 1 <= id <= self.loan_counter
                &&& self.loans@[id].loan_id == id
                &&& loan_balanced(self.loans@[id])
            } by {
                assert(old(self).loans@.contains_key(id));
                assert(old(self).loans@[id].loan_id == id);
            }
            self.lemma_update_keeps_ledger(*old(self), loan_id);
        }
        Ok((borrower, guarantee_amount))
    }
}

} // verus!
