use vstd::prelude::*;
use crate::Address;
use super::errors::CreditLineError;
use super::rules::{reputation_increase, spec_reputation_increase};
use super::safe_math;
use super::ledger::spec_loan_debt;
use super::storage::CreditLineContract;
use super::types::{
    loan_balanced, Loan, LoanStatus, ProtocolParameters, RepaymentAllocation, RepaymentInstallment,
    RepaymentReceipt, BPS_DENOMINATOR, LATE_FEE_BPS_PER_DAY, SECONDS_PER_DAY,
};

verus! {

/// Installment `i` is overdue at `now`: unpaid and due before `now`.
pub open spec fn installment_overdue(i: RepaymentInstallment, now: u64) -> bool {
    !i.paid && i.due_date < now
}

/// Some installment of `s` is overdue at `now`.
pub open spec fn has_overdue(s: Seq<RepaymentInstallment>, now: u64) -> bool {
    exists|k: int| 0 <= k < s.len() && #[trigger] installment_overdue(s[k], now)
}

/// `d` is the earliest due date among the installments of `s` overdue at
/// `now`.
pub open spec fn is_first_overdue(s: Seq<RepaymentInstallment>, now: u64, d: u64) -> bool {
    &&& exists|k: int|
        0 <= k < s.len() && #[trigger] installment_overdue(s[k], now) && s[k].due_date == d
    &&& forall|k: int|
        0 <= k < s.len() && #[trigger] installment_overdue(s[k], now) ==> d <= s[k].due_date
}

/// Earliest due date among the installments overdue at `now`, if any.
pub open spec fn spec_overdue_since(s: Seq<RepaymentInstallment>, now: u64) -> Option<u64> {
    if has_overdue(s, now) {
        Some(choose|d: u64| is_first_overdue(s, now, d))
    } else {
        None
    }
}

/// Start of the late-fee clock at `now`: the later of the earliest overdue
/// due date and the last accrual cursor (0 = never accrued); none while no
/// installment is overdue.
pub open spec fn spec_accrual_start(loan: Loan, now: u64) -> Option<u64> {
    match spec_overdue_since(loan.repayment_schedule@, now) {
        None => None,
        Some(d) => Some(
            if loan.late_fee_accrual_timestamp > d {
                loan.late_fee_accrual_timestamp
            } else {
                d
            },
        ),
    }
}

/// Complete days on the late-fee clock at `now` (0 while it is not running).
pub open spec fn spec_late_fee_days(loan: Loan, now: u64) -> int {
    match spec_accrual_start(loan, now) {
        None => 0,
        Some(start) => if now > start {
            (now - start) / (SECONDS_PER_DAY as int)
        } else {
            0
        },
    }
}

/// `x / d` rounded toward zero, as integer division in code rounds.
pub open spec fn div_toward_zero(x: int, d: int) -> int {
    if x >= 0 {
        x / d
    } else {
        -((-x) / d)
    }
}

/// `x` fits in an `i128`.
pub open spec fn fits_i128(x: int) -> bool {
    i128::MIN <= x <= i128::MAX
}

/// Late fee owed at `now` and the new accrual cursor: the remaining balance
/// times 50 basis points per complete day on the late-fee clock. The cursor
/// advances by those whole days only, so a partial day carries over. No fee,
/// cursor unchanged, when no complete day has passed or the fee rounds to
/// zero; `Overflow` when the product leaves the `i128` range.
pub open spec fn spec_accrue_late_fees(loan: Loan, now: u64) -> Result<(i128, u64), CreditLineError> {
    let days = spec_late_fee_days(loan, now);
    let rate = loan.remaining_balance * LATE_FEE_BPS_PER_DAY;
    let ts = loan.late_fee_accrual_timestamp;
    if days == 0 {
        Ok((0, ts))
    } else if !fits_i128(rate) || !fits_i128(rate * days) {
        Err(CreditLineError::Overflow)
    } else {
        let fee = div_toward_zero(rate * days, BPS_DENOMINATOR as int);
        if fee == 0 {
            Ok((0, ts))
        } else {
            Ok((fee as i128, (spec_accrual_start(loan, now)->Some_0 + days * SECONDS_PER_DAY) as u64))
        }
    }
}

/// `loan` after a late fee of `fee` accrued with cursor `cursor`.
pub open spec fn spec_accrued_loan(loan: Loan, fee: i128, cursor: u64) -> Loan {
    if fee == 0 {
        loan
    } else {
        Loan {
            late_fees_outstanding: (loan.late_fees_outstanding + fee) as i128,
            remaining_balance: (loan.remaining_balance + fee) as i128,
            late_fee_accrual_timestamp: cursor,
            ..loan
        }
    }
}

/// Fee for paying installment `i` at `now`: `bps` basis points of its
/// amount when `now` is past its due date; a due date of 0 is never late.
pub open spec fn spec_installment_late_fee(i: RepaymentInstallment, now: u64, bps: u32) -> int {
    if i.due_date != 0 && now > i.due_date {
        div_toward_zero(i.amount * bps, BPS_DENOMINATOR as int)
    } else {
        0
    }
}

/// The installment fee of a repayment: that of the slot paid, 0 for a
/// repayment of the whole loan.
pub open spec fn spec_payment_late_fee(
    loan: Loan,
    installment: Option<u32>,
    now: u64,
    bps: u32,
) -> int {
    match installment {
        None => 0,
        Some(idx) => spec_installment_late_fee(loan.repayment_schedule@[idx as int], now, bps),
    }
}

/// The smaller of `a` and `b`.
pub open spec fn min_int(a: int, b: int) -> int {
    if a < b {
        a
    } else {
        b
    }
}

/// Splits `amount` over the buckets in order (late fees, interest, service
/// fee, principal), each taking the smaller of what is left of the payment
/// and what it holds.
pub open spec fn spec_waterfall(
    late_fees: i128,
    interest: i128,
    service_fee: i128,
    principal: i128,
    amount: i128,
) -> RepaymentAllocation {
    let late_fee_paid = min_int(amount as int, late_fees as int);
    let interest_paid = min_int(amount - late_fee_paid, interest as int);
    let service_fee_paid = min_int(amount - late_fee_paid - interest_paid, service_fee as int);
    let principal_paid = min_int(
        amount - late_fee_paid - interest_paid - service_fee_paid,
        principal as int,
    );
    RepaymentAllocation {
        late_fee_paid: late_fee_paid as i128,
        interest_paid: interest_paid as i128,
        service_fee_paid: service_fee_paid as i128,
        principal_paid: principal_paid as i128,
    }
}

/// Splits `amount` over the outstanding buckets of a loan: late fees first,
/// then interest, then the service fee, then principal.
pub fn apply_waterfall(
    late_fees: i128,
    interest: i128,
    service_fee: i128,
    principal: i128,
    amount: i128,
) -> (a: RepaymentAllocation)
    requires
        0 <= late_fees,
        0 <= interest,
        0 <= service_fee,
        0 <= principal,
        0 <= amount <= late_fees + interest + service_fee + principal,
    ensures
        a == spec_waterfall(late_fees, interest, service_fee, principal, amount),
        a.late_fee_paid + a.interest_paid + a.service_fee_paid + a.principal_paid == amount,
        0 <= a.late_fee_paid <= late_fees,
        0 <= a.interest_paid <= interest,
        0 <= a.service_fee_paid <= service_fee,
        0 <= a.principal_paid <= principal,
        a.interest_paid > 0 ==> a.late_fee_paid == late_fees,
        a.service_fee_paid > 0 ==> a.interest_paid == interest,
        a.principal_paid > 0 ==> a.service_fee_paid == service_fee,
{
    let late_fee_paid = if amount < late_fees { amount } else { late_fees };
    let a1 = amount - late_fee_paid;
    let interest_paid = if a1 < interest { a1 } else { interest };
    let a2 = a1 - interest_paid;
    let service_fee_paid = if a2 < service_fee { a2 } else { service_fee };
    let a3 = a2 - service_fee_paid;
    let principal_paid = if a3 < principal { a3 } else { principal };
    RepaymentAllocation { late_fee_paid, interest_paid, service_fee_paid, principal_paid }
}

/// Earliest due date among the installments overdue at `now`, if any.
fn overdue_since(schedule: &Vec<RepaymentInstallment>, now: u64) -> (r: Option<u64>)
    ensures
        r == spec_overdue_since(schedule@, now),
{
    let ghost s = schedule@;
    let mut result: Option<u64> = None;
    let mut i: usize = 0;
    while i < schedule.len()
        invariant
            0 <= i <= s.len(),
            s == schedule@,
            result is None ==> forall|k: int|
                0 <= k < i ==> !#[trigger] installment_overdue(s[k], now),
            result matches Some(d) ==> {
                &&& exists|k: int|
                    0 <= k < i && #[trigger] installment_overdue(s[k], now) && s[k].due_date == d
                &&& forall|k: int|
                    0 <= k < i && #[trigger] installment_overdue(s[k], now) ==> d <= s[k].due_date
            },
        decreases s.len() - i,
    {
        let slot = schedule[i];
        if !slot.paid && slot.due_date < now {
            let d = slot.due_date;
            proof {
                assert(installment_overdue(s[i as int], now));
            }
            result = Some(
                match result {
                    None => d,
                    Some(p) => if d < p {
                        d
                    } else {
                        p
                    },
                },
            );
        }
        i = i + 1;
    }
    proof {
        match result {
            None => {
                assert(!has_overdue(s, now));
            },
            Some(d) => {
                assert(is_first_overdue(s, now, d));
                assert(has_overdue(s, now));
                let d2 = choose|d2: u64| is_first_overdue(s, now, d2);
                let k2 = choose|k: int|
                    0 <= k < s.len() && #[trigger] installment_overdue(s[k], now)
                        && s[k].due_date == d2;
                let k1 = choose|k: int|
                    0 <= k < s.len() && #[trigger] installment_overdue(s[k], now)
                        && s[k].due_date == d;
                assert(d <= s[k2].due_date);
                assert(d2 <= s[k1].due_date);
            },
        }
    }
    result
}

/// Late fee owed on `loan` at `now` and the new accrual cursor (the cursor
/// is unchanged when no fee is owed).
pub fn accrue_late_fees_internal(loan: &Loan, now: u64) -> (r: Result<(i128, u64), CreditLineError>)
    ensures
        r == spec_accrue_late_fees(*loan, now),
{
    let ts = loan.late_fee_accrual_timestamp;
    let overdue = overdue_since(&loan.repayment_schedule, now);
    let overdue_since = match overdue {
        Some(d) => d,
        None => {
            return Ok((0, ts));
        },
    };
    let accrual_start = if ts == 0 {
        overdue_since
    } else if ts > overdue_since {
        ts
    } else {
        overdue_since
    };
    if now <= accrual_start {
        return Ok((0, ts));
    }
    let seconds_elapsed = now - accrual_start;
    let days_u64 = seconds_elapsed / SECONDS_PER_DAY;
    let days_elapsed = days_u64 as i128;
    if days_elapsed == 0 {
        return Ok((0, ts));
    }
    let p = safe_math::mul_i128(loan.remaining_balance, LATE_FEE_BPS_PER_DAY)?;
    let q = safe_math::mul_i128(p, days_elapsed)?;
    let fee = match q.checked_div(BPS_DENOMINATOR) {
        Some(f) => f,
        None => 0,
    };
    if fee == 0 {
        return Ok((0, ts));
    }
    proof {
        assert(days_u64 * SECONDS_PER_DAY <= seconds_elapsed) by (nonlinear_arith)
            requires
                days_u64 == seconds_elapsed / SECONDS_PER_DAY,
        ;
    }
    let cursor = accrual_start + days_u64 * SECONDS_PER_DAY;
    Ok((fee, cursor))
}

/// Among finitely many installments, when some are overdue there is an
/// earliest overdue due date, and `spec_overdue_since` gives it.
pub proof fn lemma_first_overdue_exists(s: Seq<RepaymentInstallment>, now: u64)
    requires
        has_overdue(s, now),
    ensures
        is_first_overdue(s, now, spec_overdue_since(s, now)->Some_0),
    decreases s.len(),
{
    let t = s.drop_last();
    let n = s.len() - 1;
    let d: u64 = if has_overdue(t, now) {
        lemma_first_overdue_exists(t, now);
        let dt = spec_overdue_since(t, now)->Some_0;
        let kt = choose|k: int| 0 <= k < t.len() && #[trigger] installment_overdue(t[k], now) && t[k].due_date == dt;
        assert(installment_overdue(s[kt], now) && s[kt].due_date == dt);
        if installment_overdue(s[n], now) && s[n].due_date < dt {
            s[n].due_date
        } else {
            dt
        }
    } else {
        assert(installment_overdue(s[n], now)) by {
            let k = choose|k: int| 0 <= k < s.len() && #[trigger] installment_overdue(s[k], now);
            if k < n {
                assert(installment_overdue(t[k], now));
            }
        }
        s[n].due_date
    };
    assert(is_first_overdue(s, now, d)) by {
        assert forall|k: int| 0 <= k < s.len() && #[trigger] installment_overdue(s[k], now) implies d
            <= s[k].due_date by {
            if k < n {
                assert(installment_overdue(t[k], now));
            }
        }
        if has_overdue(t, now) {
            let dt = spec_overdue_since(t, now)->Some_0;
            if !(installment_overdue(s[n], now) && s[n].due_date < dt) {
                let kt = choose|k: int| 0 <= k < t.len() && #[trigger] installment_overdue(t[k], now) && t[k].due_date == dt;
                assert(installment_overdue(s[kt], now) && s[kt].due_date == dt);
            } else {
                assert(installment_overdue(s[n], now));
            }
        } else {
            assert(installment_overdue(s[n], now));
        }
    }
    let c = choose|d2: u64| is_first_overdue(s, now, d2);
    assert(is_first_overdue(s, now, c));
}

/// Once the accrual cursor is at or past an overdue due date, the late-fee
/// clock runs from the cursor: the fee at `now` is the balance times 50
/// basis points per complete day since the cursor, and the cursor moves on
/// by those days. Days before the cursor are never billed again.
pub proof fn lemma_late_fee_clock_starts_at_cursor(loan: Loan, now: u64, k: int)
    requires
        0 <= k < loan.repayment_schedule@.len(),
        installment_overdue(loan.repayment_schedule@[k], now),
        loan.repayment_schedule@[k].due_date <= loan.late_fee_accrual_timestamp,
        loan.remaining_balance >= 0,
    ensures
        ({
            let ts = loan.late_fee_accrual_timestamp;
            let days: int = if now > ts {
                (now - ts) / 86_400
            } else {
                0
            };
            let product = loan.remaining_balance * 50 * days;
            let fee = product / 10_000;
            &&& days == 0 ==> spec_accrue_late_fees(loan, now) == Ok::<
                (i128, u64),
                CreditLineError,
            >((0, ts))
            &&& days > 0 && product > i128::MAX ==> spec_accrue_late_fees(loan, now) == Err::<
                (i128, u64),
                CreditLineError,
            >(CreditLineError::Overflow)
            &&& days > 0 && product <= i128::MAX && fee == 0 ==> spec_accrue_late_fees(loan, now)
                == Ok::<(i128, u64), CreditLineError>((0, ts))
            &&& days > 0 && product <= i128::MAX && fee > 0 ==> spec_accrue_late_fees(loan, now)
                == Ok::<(i128, u64), CreditLineError>((fee as i128, (ts + days * 86_400) as u64))
        }),
{
    let s = loan.repayment_schedule@;
    assert(has_overdue(s, now));
    lemma_first_overdue_exists(s, now);
    let d = spec_overdue_since(s, now)->Some_0;
    assert(d <= s[k].due_date);
    assert(spec_accrual_start(loan, now) == Some(loan.late_fee_accrual_timestamp));
    let ts = loan.late_fee_accrual_timestamp;
    if now > ts {
        let days = (now - ts) / 86_400;
        let b = loan.remaining_balance as int;
        assert(0 <= b * 50 <= b * 50 * days || days == 0) by (nonlinear_arith)
            requires
                b >= 0,
                days >= 0,
        ;
    }
}

/// No day is billed twice: after an accrual at `t1` that charged a fee and
/// moved the cursor to `c`, an accrual at any later `t2` charges the
/// (grown) balance times 50 basis points per complete day since `c` only.
pub proof fn lemma_no_day_billed_twice(loan: Loan, t1: u64, t2: u64)
    requires
        loan.remaining_balance >= 0,
        spec_accrue_late_fees(loan, t1) is Ok,
        spec_accrue_late_fees(loan, t1)->Ok_0.0 > 0,
        t1 <= t2,
    ensures
        ({
            let (f1, c) = spec_accrue_late_fees(loan, t1)->Ok_0;
            let l1 = spec_accrued_loan(loan, f1, c);
            let days: int = if t2 > c {
                (t2 - c) / 86_400
            } else {
                0
            };
            let product = l1.remaining_balance * 50 * days;
            let fee = product / 10_000;
            &&& l1.late_fee_accrual_timestamp == c
            &&& c <= t1
            &&& days == 0 ==> spec_accrue_late_fees(l1, t2) == Ok::<(i128, u64), CreditLineError>(
                (0, c),
            )
            &&& days > 0 && product <= i128::MAX && fee > 0 ==> spec_accrue_late_fees(l1, t2)
                == Ok::<(i128, u64), CreditLineError>((fee as i128, (c + days * 86_400) as u64))
            &&& days > 0 && product <= i128::MAX && fee == 0 ==> spec_accrue_late_fees(l1, t2)
                == Ok::<(i128, u64), CreditLineError>((0, c))
        }),
{
    let s = loan.repayment_schedule@;
    let (f1, c) = spec_accrue_late_fees(loan, t1)->Ok_0;
    assert(spec_late_fee_days(loan, t1) > 0);
    assert(has_overdue(s, t1));
    lemma_first_overdue_exists(s, t1);
    let d1 = spec_overdue_since(s, t1)->Some_0;
    let k1 = choose|k: int| 0 <= k < s.len() && #[trigger] installment_overdue(s[k], t1) && s[k].due_date == d1;
    let start = spec_accrual_start(loan, t1)->Some_0;
    let days1 = spec_late_fee_days(loan, t1);
    assert(days1 * 86_400 <= t1 - start) by (nonlinear_arith)
        requires
            days1 == (t1 - start) / 86_400,
            t1 > start,
    ;
    assert(c == start + days1 * 86_400);
    let b1 = loan.remaining_balance + f1;
    assert(b1 >= 0);
    let l1 = spec_accrued_loan(loan, f1, c);
    assert(installment_overdue(l1.repayment_schedule@[k1], t2));
    lemma_late_fee_clock_starts_at_cursor(l1, t2, k1);
}

impl CreditLineContract {
    /// Due date of the last installment (0 for an empty schedule).
    pub open spec fn spec_last_due_date(loan: Loan) -> u64 {
        let s = loan.repayment_schedule@;
        if s.len() > 0 {
            s.last().due_date
        } else {
            0
        }
    }

    /// Every check a repayment performs, in order; the accrued fee and
    /// cursor when all pass. `installment` selects `repay_installment`.
    pub open spec fn spec_repay(
        self,
        borrower: Address,
        loan_id: u64,
        installment: Option<u32>,
        amount: i128,
        now: u64,
        late_fee_bps: u32,
    ) -> Result<(i128, u64), CreditLineError> {
        if !self.loans@.contains_key(loan_id) {
            Err(CreditLineError::LoanNotFound)
        } else {
            let loan = self.loans@[loan_id];
            if loan.borrower != borrower {
                Err(CreditLineError::UnauthorizedRepayer)
            } else if loan.status != LoanStatus::Active {
                Err(CreditLineError::LoanNotActive)
            } else if installment is Some && installment->Some_0
                >= loan.repayment_schedule@.len() {
                Err(CreditLineError::InvalidInstallmentIndex)
            } else if installment is Some
                && loan.repayment_schedule@[installment->Some_0 as int].paid {
                Err(CreditLineError::InstallmentAlreadyPaid)
            } else {
                match spec_accrue_late_fees(loan, now) {
                    Err(e) => Err(e),
                    Ok(acc) => {
                        let fee = acc.0;
                        let debt = self.spec_active_debt(borrower);
                        let balance = loan.remaining_balance + fee;
                        if fee > 0 && !(debt + fee <= i128::MAX) {
                            Err(CreditLineError::Overflow)
                        } else if fee > 0 && !(balance <= i128::MAX) {
                            Err(CreditLineError::Overflow)
                        } else if amount <= 0 || amount > balance {
                            Err(CreditLineError::InvalidRepaymentAmount)
                        } else if installment is Some && {
                            let i = loan.repayment_schedule@[installment->Some_0 as int];
                            i.due_date != 0 && now > i.due_date && !fits_i128(
                                i.amount * late_fee_bps,
                            )
                        } {
                            Err(CreditLineError::Overflow)
                        } else if !fits_i128(
                            amount + spec_payment_late_fee(loan, installment, now, late_fee_bps),
                        ) {
                            Err(CreditLineError::Overflow)
                        } else if self.reentrancy_locked {
                            Err(CreditLineError::ReentrancyDetected)
                        } else if !(i128::MIN <= debt + fee - amount) {
                            Err(CreditLineError::Underflow)
                        } else if self.liquidity_pool is None {
                            Err(CreditLineError::InsufficientLiquidity)
                        } else if self.token is None {
                            Err(CreditLineError::TokenNotConfigured)
                        } else {
                            Ok(acc)
                        }
                    },
                }
            }
        }
    }

    /// The loan after a payment of `amount`: fees accrued, the waterfall
    /// applied to the buckets, the balance reduced, and `Paid` once nothing
    /// is left. The schedule is that of `loan`.
    pub open spec fn spec_repaid_loan(loan: Loan, acc: (i128, u64), amount: i128) -> Loan {
        let l1 = spec_accrued_loan(loan, acc.0, acc.1);
        let a = spec_waterfall(
            l1.late_fees_outstanding,
            l1.interest_outstanding,
            l1.service_fee_outstanding,
            l1.principal_outstanding,
            amount,
        );
        let new_balance = l1.remaining_balance - amount;
        Loan {
            late_fees_outstanding: (l1.late_fees_outstanding - a.late_fee_paid) as i128,
            interest_outstanding: (l1.interest_outstanding - a.interest_paid) as i128,
            service_fee_outstanding: (l1.service_fee_outstanding - a.service_fee_paid) as i128,
            principal_outstanding: (l1.principal_outstanding - a.principal_paid) as i128,
            remaining_balance: new_balance as i128,
            status: if new_balance == 0 {
                LoanStatus::Paid
            } else {
                l1.status
            },
            ..l1
        }
    }

    /// The receipt of a payment of `amount` on `loan` at `now`.
    pub open spec fn spec_repay_receipt(
        self,
        loan: Loan,
        acc: (i128, u64),
        amount: i128,
        now: u64,
        installment_late_fee: int,
    ) -> RepaymentReceipt {
        let l1 = spec_accrued_loan(loan, acc.0, acc.1);
        let a = spec_waterfall(
            l1.late_fees_outstanding,
            l1.interest_outstanding,
            l1.service_fee_outstanding,
            l1.principal_outstanding,
            amount,
        );
        let new_balance = (l1.remaining_balance - amount) as i128;
        let paid = new_balance == 0;
        RepaymentReceipt {
            accrued_late_fee: acc.0,
            installment_late_fee: installment_late_fee as i128,
            amount_charged: (amount + installment_late_fee) as i128,
            allocation: a,
            new_balance,
            fully_repaid: paid,
            guarantee_refund: if paid {
                loan.guarantee_amount
            } else {
                0
            },
            reputation_increase: if paid && self.reputation_contract is Some {
                Some(spec_reputation_increase(now, Self::spec_last_due_date(loan)))
            } else {
                None
            },
        }
    }

    /// Shared body of `repay_loan` and `repay_installment`.
    #[verifier::spinoff_prover]
    #[verifier::rlimit(40)]
    fn settle_payment(
        &mut self,
        borrower: Address,
        loan_id: u64,
        installment: Option<u32>,
        amount: i128,
        now: u64,
        late_fee_bps: u32,
    ) -> (r: Result<RepaymentReceipt, CreditLineError>)
        requires
            old(self).wf(),
        ensures
            final(self).wf(),
            ({
                let c = old(self).spec_repay(borrower, loan_id, installment, amount, now, late_fee_bps);
                let loan = old(self).loans@[loan_id];
                let expected = Self::spec_repaid_loan(loan, c->Ok_0, amount);
                &&& r is Ok <==> c is Ok
                &&& r is Err ==> r->Err_0 == c->Err_0 && *final(self) == *old(self)
                &&& r is Ok ==> {
                    &&& r->Ok_0 == old(self).spec_repay_receipt(
                        loan,
                        c->Ok_0,
                        amount,
                        now,
                        spec_payment_late_fee(loan, installment, now, late_fee_bps),
                    )
                    &&& final(self).loans@ == old(self).loans@.insert(
                        loan_id,
                        Loan {
                            repayment_schedule: final(self).loans@[loan_id].repayment_schedule,
                            ..expected
                        },
                    )
                    &&& installment is None ==> final(self).loans@[loan_id].repayment_schedule
                        == loan.repayment_schedule
                    &&& installment is Some ==> final(self).loans@[loan_id].repayment_schedule@
                        == loan.repayment_schedule@.update(
                        installment->Some_0 as int,
                        RepaymentInstallment {
                            paid: true,
                            paid_at: now,
                            ..loan.repayment_schedule@[installment->Some_0 as int]
                        },
                    )
                    &&& final(self).user_active_debt@ == old(self).user_active_debt@.insert(
                        borrower,
                        (old(self).spec_active_debt(borrower) + c->Ok_0.0 - amount) as i128,
                    )
                    &&& final(self).user_loan_count@ == old(self).user_loan_count@
                    &&& final(self).user_loan_at@ == old(self).user_loan_at@
                    &&& final(self).loan_counter == old(self).loan_counter
                    &&& final(self).settings_eq(*old(self))
                }
            }),
    {
        let (acc, remaining_balance, late, interest, service_fee, principal, guarantee, last_due, slot) = {
            let loan = self.read_loan(loan_id)?;
            if loan.borrower != borrower {
                return Err(CreditLineError::UnauthorizedRepayer);
            }
            if loan.status != LoanStatus::Active {
                return Err(CreditLineError::LoanNotActive);
            }
            let slot = match installment {
                Some(idx) => {
                    if idx as usize >= loan.repayment_schedule.len() {
                        return Err(CreditLineError::InvalidInstallmentIndex);
                    }
                    if loan.repayment_schedule[idx as usize].paid {
                        return Err(CreditLineError::InstallmentAlreadyPaid);
                    }
                    Some(loan.repayment_schedule[idx as usize])
                },
                None => None,
            };
            let acc = accrue_late_fees_internal(loan, now)?;
            let n = loan.repayment_schedule.len();
            let last_due = if n > 0 {
                loan.repayment_schedule[n - 1].due_date
            } else {
                0
            };
            (
                acc,
                loan.remaining_balance,
                loan.late_fees_outstanding,
                loan.interest_outstanding,
                loan.service_fee_outstanding,
                loan.principal_outstanding,
                loan.guarantee_amount,
                last_due,
                slot,
            )
        };
        let ghost loan0 = self.loans@[loan_id];
        proof {
            assert(loan_balanced(loan0));
        }
        let fee = acc.0;
        let debt = self.get_user_active_debt(borrower);
        let mut debt_after_fee = debt;
        let mut balance = remaining_balance;
        let mut late_after = late;
        if fee > 0 {
            debt_after_fee = safe_math::add_i128(debt, fee)?;
            balance = safe_math::add_i128(remaining_balance, fee)?;
            late_after = late + fee;
        }
        if amount <= 0 || amount > balance {
            return Err(CreditLineError::InvalidRepaymentAmount);
        }
        let mut installment_late_fee: i128 = 0;
        match slot {
            Some(i) => {
                if i.due_date != 0 && now > i.due_date {
                    let p = safe_math::mul_i128(i.amount, late_fee_bps as i128)?;
                    installment_late_fee = match p.checked_div(BPS_DENOMINATOR) {
                        Some(f) => f,
                        None => 0,
                    };
                }
            },
            None => {},
        }
        let amount_charged = safe_math::add_i128(amount, installment_late_fee)?;
        if self.reentrancy_locked {
            return Err(CreditLineError::ReentrancyDetected);
        }
        let new_debt = safe_math::sub_i128(debt_after_fee, amount)?;
        if self.liquidity_pool.is_none() {
            return Err(CreditLineError::InsufficientLiquidity);
        }
        if self.token.is_none() {
            return Err(CreditLineError::TokenNotConfigured);
        }
        let allocation = apply_waterfall(late_after, interest, service_fee, principal, amount);
        let new_balance = balance - amount;
        let fully_repaid = new_balance == 0;
        self.user_active_debt.insert(borrower, new_debt);
        let mut loan = self.loans.remove(&loan_id).unwrap();
        if fee > 0 {
            loan.late_fees_outstanding = late_after;
            loan.remaining_balance = balance;
            loan.late_fee_accrual_timestamp = acc.1;
        }
        loan.late_fees_outstanding = late_after - allocation.late_fee_paid;
        loan.interest_outstanding = interest - allocation.interest_paid;
        loan.service_fee_outstanding = service_fee - allocation.service_fee_paid;
        loan.principal_outstanding = principal - allocation.principal_paid;
        loan.remaining_balance = new_balance;
        if fully_repaid {
            loan.status = LoanStatus::Paid;
        }
        match installment {
            Some(idx) => {
                let mut slot = loan.repayment_schedule[idx as usize];
                slot.paid = true;
                slot.paid_at = now;
                loan.repayment_schedule.set(idx as usize, slot);
            },
            None => {},
        }
        self.loans.insert(loan_id, loan);
        proof {
            assert forall|id: u64| #[trigger] self.loans@.contains_key(id) implies {
                &&& 1 <= id <= self.loan_counter
                &&& self.loans@[id].loan_id == id
                &&& loan_balanced(self.loans@[id])
            } by {
                assert(old(self).loans@.contains_key(id));
                assert(old(self).loans@[id].loan_id == id);
            }
            assert(self.loans@ =~= old(self).loans@.insert(
                loan_id,
                Loan {
                    repayment_schedule: self.loans@[loan_id].repayment_schedule,
                    ..Self::spec_repaid_loan(loan0, acc, amount)
                },
            ));
            assert(self.loans@[loan_id].remaining_balance == new_balance);
            assert(self.loans@[loan_id].status == if fully_repaid {
                LoanStatus::Paid
            } else {
                LoanStatus::Active
            });
            assert forall|x: Address| #[trigger] self.spec_active_debt(x) == old(self).spec_active_debt(x)
                + if x == loan0.borrower {
                spec_loan_debt(self.loans@, loan_id) - spec_loan_debt(old(self).loans@, loan_id)
            } else {
                0
            } by {}
            self.lemma_update_keeps_ledger(*old(self), loan_id);
        }
        let reputation_increase = if fully_repaid && self.reputation_contract.is_some() {
            Some(reputation_increase(now, last_due))
        } else {
            None
        };
        Ok(
            RepaymentReceipt {
                accrued_late_fee: fee,
                installment_late_fee,
                amount_charged,
                allocation,
                new_balance,
                fully_repaid,
                guarantee_refund: if fully_repaid {
                    guarantee
                } else {
                    0
                },
                reputation_increase,
            },
        )
    }

    /// Repayment of `amount` by the borrower. Late fees due at `now` accrue
    /// first (and join the borrower's debt); the payment must be positive and
    /// at most the resulting balance. It pays late fees, then interest, then
    /// the service fee, then principal; the loan is `Paid` once its balance
    /// reaches zero. The receipt lists what the pool receives (principal
    /// part and the rest), the guarantee refund on full repayment and the
    /// reputation increase requested then (15 if paid before the last due
    /// date, 10 otherwise).
    pub fn repay_loan(&mut self, borrower: Address, loan_id: u64, amount: i128, now: u64) -> (r:
        Result<RepaymentReceipt, CreditLineError>)
        requires
            old(self).wf(),
        ensures
            final(self).wf(),
            ({
                let c = old(self).spec_repay(borrower, loan_id, None, amount, now, 0);
                let loan = old(self).loans@[loan_id];
                &&& r is Ok <==> c is Ok
                &&& r is Err ==> r->Err_0 == c->Err_0 && *final(self) == *old(self)
                &&& r is Ok ==> {
                    &&& r->Ok_0 == old(self).spec_repay_receipt(loan, c->Ok_0, amount, now, 0)
                    &&& r->Ok_0.fully_repaid && old(self).reputation_contract is Some
                        ==> r->Ok_0.reputation_increase == Some(
                        if now < Self::spec_last_due_date(loan) {
                            15u32
                        } else {
                            10u32
                        },
                    )
                    &&& final(self).loans@ == old(self).loans@.insert(
                        loan_id,
                        Self::spec_repaid_loan(loan, c->Ok_0, amount),
                    )
                    &&& final(self).user_active_debt@ == old(self).user_active_debt@.insert(
                        borrower,
                        (old(self).spec_active_debt(borrower) + c->Ok_0.0 - amount) as i128,
                    )
                    &&& final(self).user_loan_count@ == old(self).user_loan_count@
                    &&& final(self).user_loan_at@ == old(self).user_loan_at@
                    &&& final(self).loan_counter == old(self).loan_counter
                    &&& final(self).settings_eq(*old(self))
                }
            }),
    {
        let r = self.settle_payment(borrower, loan_id, None, amount, now, 0);
        proof {
            if r is Ok {
                let c = old(self).spec_repay(borrower, loan_id, None, amount, now, 0);
                let expected = Self::spec_repaid_loan(old(self).loans@[loan_id], c->Ok_0, amount);
                assert(Loan {
                    repayment_schedule: self.loans@[loan_id].repayment_schedule,
                    ..expected
                } == expected);
            }
        }
        r
    }

    /// Repayment of `amount` against installment `installment_index`, which
    /// must exist and be unpaid; the slot is marked paid at `now`. Paid after
    /// its due date (a due date of 0 is never late), the installment costs a
    /// fee of `params.late_fee_bps` basis points of its amount on top of
    /// `amount`; the fee goes to the pool and leaves the loan's balance and
    /// the borrower's debt as they are. Otherwise as `repay_loan`.
    pub fn repay_installment(
        &mut self,
        borrower: Address,
        loan_id: u64,
        installment_index: u32,
        amount: i128,
        now: u64,
        params: &ProtocolParameters,
    ) -> (r: Result<RepaymentReceipt, CreditLineError>)
        requires
            old(self).wf(),
        ensures
            final(self).wf(),
            ({
                let bps = params.late_fee_bps;
                let c = old(self).spec_repay(borrower, loan_id, Some(installment_index), amount, now, bps);
                let loan = old(self).loans@[loan_id];
                let slot = loan.repayment_schedule@[installment_index as int];
                let expected = Self::spec_repaid_loan(loan, c->Ok_0, amount);
                &&& r is Ok <==> c is Ok
                &&& r is Err ==> r->Err_0 == c->Err_0 && *final(self) == *old(self)
                &&& r is Ok ==> {
                    &&& r->Ok_0 == old(self).spec_repay_receipt(
                        loan,
                        c->Ok_0,
                        amount,
                        now,
                        spec_installment_late_fee(slot, now, bps),
                    )
                    &&& r->Ok_0.installment_late_fee == spec_installment_late_fee(slot, now, bps)
                    &&& r->Ok_0.amount_charged == amount + r->Ok_0.installment_late_fee
                    &&& r->Ok_0.fully_repaid && old(self).reputation_contract is Some
                        ==> r->Ok_0.reputation_increase == Some(
                        if now < Self::spec_last_due_date(loan) {
                            15u32
                        } else {
                            10u32
                        },
                    )
                    &&& final(self).loans@ == old(self).loans@.insert(
                        loan_id,
                        Loan {
                            repayment_schedule: final(self).loans@[loan_id].repayment_schedule,
                            ..expected
                        },
                    )
                    &&& final(self).loans@[loan_id].repayment_schedule@
                        == loan.repayment_schedule@.update(
                        installment_index as int,
                        RepaymentInstallment {
                            paid: true,
                            paid_at: now,
                            ..loan.repayment_schedule@[installment_index as int]
                        },
                    )
                    &&& final(self).user_active_debt@ == old(self).user_active_debt@.insert(
                        borrower,
                        (old(self).spec_active_debt(borrower) + c->Ok_0.0 - amount) as i128,
                    )
                    &&& final(self).user_loan_count@ == old(self).user_loan_count@
                    &&& final(self).user_loan_at@ == old(self).user_loan_at@
                    &&& final(self).loan_counter == old(self).loan_counter
                    &&& final(self).settings_eq(*old(self))
                }
            }),
    {
        self.settle_payment(borrower, loan_id, Some(installment_index), amount, now, params.late_fee_bps)
    }

    /// Every check `apply_late_fees` performs, in order; the accrued fee and
    /// cursor when all pass.
    pub open spec fn spec_apply_late_fees(self, loan_id: u64, now: u64) -> Result<
        (i128, u64),
        CreditLineError,
    > {
        if !self.loans@.contains_key(loan_id) {
            Err(CreditLineError::LoanNotFound)
        } else {
            let loan = self.loans@[loan_id];
            if loan.status != LoanStatus::Active {
                Err(CreditLineError::LoanNotActive)
            } else {
                match spec_accrue_late_fees(loan, now) {
                    Err(e) => Err(e),
                    Ok(acc) => if acc.0 > 0 && !(self.spec_active_debt(loan.borrower) + acc.0
                        <= i128::MAX) {
                        Err(CreditLineError::Overflow)
                    } else if acc.0 > 0 && !(loan.remaining_balance + acc.0 <= i128::MAX) {
                        Err(CreditLineError::Overflow)
                    } else {
                        Ok(acc)
                    },
                }
            }
        }
    }

    /// Permissionless late-fee accrual on an active loan. Returns the fee
    /// accrued (0, with nothing changed, when no complete overdue day has
    /// passed since the last accrual); the fee joins the loan's late-fee
    /// bucket, its balance and the borrower's debt.
    pub fn apply_late_fees(&mut self, loan_id: u64, now: u64) -> (r: Result<i128, CreditLineError>)
        requires
            old(self).wf(),
        ensures
            final(self).wf(),
            ({
                let c = old(self).spec_apply_late_fees(loan_id, now);
                let loan = old(self).loans@[loan_id];
                &&& r is Ok <==> c is Ok
                &&& r is Err ==> r->Err_0 == c->Err_0 && *final(self) == *old(self)
                &&& r is Ok ==> r->Ok_0 == c->Ok_0.0
                &&& r is Ok && c->Ok_0.0 == 0 ==> *final(self) == *old(self)
                &&& r is Ok && c->Ok_0.0 > 0 ==> {
                    &&& final(self).loans@ == old(self).loans@.insert(
                        loan_id,
                        spec_accrued_loan(loan, c->Ok_0.0, c->Ok_0.1),
                    )
                    &&& final(self).user_active_debt@ == old(self).user_active_debt@.insert(
                        loan.borrower,
                        (old(self).spec_active_debt(loan.borrower) + c->Ok_0.0) as i128,
                    )
                    &&& final(self).user_loan_count@ == old(self).user_loan_count@
                    &&& final(self).user_loan_at@ == old(self).user_loan_at@
                    &&& final(self).loan_counter == old(self).loan_counter
                    &&& final(self).settings_eq(*old(self))
                }
            }),
    {
        let (acc, borrower, remaining_balance, late) = {
            let loan = self.read_loan(loan_id)?;
            if loan.status != LoanStatus::Active {
                return Err(CreditLineError::LoanNotActive);
            }
            let acc = accrue_late_fees_internal(loan, now)?;
            (acc, loan.borrower, loan.remaining_balance, loan.late_fees_outstanding)
        };
        let fee = acc.0;
        if fee == 0 {
            return Ok(0);
        }
        let ghost loan0 = self.loans@[loan_id];
        proof {
            assert(loan_balanced(loan0));
        }
        let debt = self.get_user_active_debt(borrower);
        let new_debt = safe_math::add_i128(debt, fee)?;
        let new_balance = safe_math::add_i128(remaining_balance, fee)?;
        self.user_active_debt.insert(borrower, new_debt);
        let mut loan = self.loans.remove(&loan_id).unwrap();
        loan.late_fees_outstanding = late + fee;
        loan.remaining_balance = new_balance;
        loan.late_fee_accrual_timestamp = acc.1;
        self.loans.insert(loan_id, loan);
        proof {
            assert forall|id: u64| #[trigger] self.loans@.contains_key(id) implies {
                &&& 1 <= id <= self.loan_counter
                &&& self.loans@[id].loan_id == id
                &&& loan_balanced(self.loans@[id])
            } by {
                assert(old(self).loans@.contains_key(id));
                assert(old(self).loans@[id].loan_id == id);
            }
            assert(self.loans@ =~= old(self).loans@.insert(
                loan_id,
                spec_accrued_loan(loan0, acc.0, acc.1),
            ));
            assert forall|x: Address| #[trigger] self.spec_active_debt(x) == old(self).spec_active_debt(x)
                + if x == loan0.borrower {
                spec_loan_debt(self.loans@, loan_id) - spec_loan_debt(old(self).loans@, loan_id)
            } else {
                0
            } by {}
            self.lemma_update_keeps_ledger(*old(self), loan_id);
        }
        Ok(fee)
    }
}

} // verus!
