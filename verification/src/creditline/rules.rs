use vstd::prelude::*;
use super::errors::CreditLineError;
use super::safe_math;
use super::storage::CreditLineContract;
use super::types::{
    default_protocol_parameters, spec_default_protocol_parameters, Loan, ProtocolParameters,
    BPS_DENOMINATOR, SERVICE_FEE_BPS,
};

verus! {

/// Interest rate, in basis points, for a borrower with reputation `score`.
pub open spec fn spec_interest_rate_bps(base_interest_bps: u32, score: u32) -> u32 {
    if base_interest_bps == 0 {
        if score >= 90 {
            400
        } else if score >= 75 {
            600
        } else if score >= 60 {
            800
        } else {
            1_000
        }
    } else {
        let discount: u32 = if score >= 90 {
            600
        } else if score >= 75 {
            400
        } else if score >= 60 {
            200
        } else {
            0
        };
        if base_interest_bps >= discount {
            (base_interest_bps - discount) as u32
        } else {
            0
        }
    }
}

/// Credit limit of a borrower with reputation `score`.
pub open spec fn spec_credit_limit(score: u32) -> i128 {
    if score >= 90 {
        10_000
    } else if score >= 75 {
        5_000
    } else if score >= 60 {
        2_500
    } else {
        1_000
    }
}

/// `base * bps / 10_000` with checked arithmetic.
pub open spec fn spec_bps_amount(base: i128, bps: i128) -> Result<i128, CreditLineError> {
    match base.checked_mul(bps) {
        None => Err(CreditLineError::Overflow),
        Some(p) => match p.checked_div(BPS_DENOMINATOR) {
            None => Err(CreditLineError::Overflow),
            Some(q) => Ok(q),
        },
    }
}

/// Guarantee rules: both amounts positive, the guarantee no larger than the
/// loan and at least `min_guarantee_percent` of it.
pub open spec fn spec_validate_guarantee(
    total_amount: i128,
    guarantee_amount: i128,
    params: ProtocolParameters,
) -> Result<(), CreditLineError> {
    if total_amount <= 0 || guarantee_amount <= 0 {
        Err(CreditLineError::InvalidAmount)
    } else if guarantee_amount > total_amount {
        Err(CreditLineError::InvalidAmount)
    } else {
        match total_amount.checked_mul(params.min_guarantee_percent) {
            None => Err(CreditLineError::Overflow),
            Some(p) => match p.checked_div(100) {
                None => Err(CreditLineError::Overflow),
                Some(min_guarantee) => if guarantee_amount < min_guarantee {
                    Err(CreditLineError::InsufficientGuarantee)
                } else {
                    Ok(())
                },
            },
        }
    }
}

/// Default penalty for a loan of `total_amount`.
pub open spec fn spec_default_penalty(total_amount: i128, params: ProtocolParameters) -> u32 {
    if total_amount > params.large_loan_threshold {
        params.large_loan_default_penalty
    } else {
        params.default_penalty
    }
}

/// Reputation gained on full repayment: 15 when paid before the last due
/// date, 10 otherwise.
pub open spec fn spec_reputation_increase(payment_date: u64, due_date: u64) -> u32 {
    if payment_date < due_date {
        15
    } else {
        10
    }
}

/// Interest, service fee and resulting balance of a new loan.
pub open spec fn spec_loan_charges(total_amount: i128, rate_bps: u32) -> Result<
    (i128, i128, i128),
    CreditLineError,
> {
    match spec_bps_amount(total_amount, rate_bps as i128) {
        Err(e) => Err(e),
        Ok(interest) => match spec_bps_amount(total_amount, SERVICE_FEE_BPS) {
            Err(e) => Err(e),
            Ok(fee) => match total_amount.checked_add(interest) {
                None => Err(CreditLineError::Overflow),
                Some(t) => match t.checked_add(fee) {
                    None => Err(CreditLineError::Overflow),
                    Some(remaining) => Ok((interest, fee, remaining)),
                },
            },
        },
    }
}

/// Interest rate, in basis points, for a borrower with reputation `score`.
pub fn interest_rate_bps(params: &ProtocolParameters, score: u32) -> (r: u32)
    ensures
        r == spec_interest_rate_bps(params.base_interest_bps, score),
        params.base_interest_bps >= 400 && 75 <= score <= 89 ==> r + 400
            == params.base_interest_bps,
        params.base_interest_bps >= 600 && score >= 90 ==> r + 600 == params.base_interest_bps,
        params.base_interest_bps >= 200 && 60 <= score <= 74 ==> r + 200
            == params.base_interest_bps,
        params.base_interest_bps > 0 && score < 60 ==> r == params.base_interest_bps,
{
    let base_interest_bps = params.base_interest_bps;
    if base_interest_bps == 0 {
        return if score >= 90 {
            400
        } else if score >= 75 {
            600
        } else if score >= 60 {
            800
        } else {
            1_000
        };
    }
    if score >= 90 {
        base_interest_bps.saturating_sub(600)
    } else if score >= 75 {
        base_interest_bps.saturating_sub(400)
    } else if score >= 60 {
        base_interest_bps.saturating_sub(200)
    } else {
        base_interest_bps
    }
}

/// `base * bps / 10_000` with checked arithmetic.
pub fn calculate_bps_amount(base: i128, bps: i128) -> (r: Result<i128, CreditLineError>)
    ensures
        r == spec_bps_amount(base, bps),
        base >= 0 && bps >= 0 && r is Ok ==> r->Ok_0 == (base * bps) / (BPS_DENOMINATOR as int),
{
    let p = safe_math::mul_i128(base, bps)?;
    safe_math::div_i128(p, BPS_DENOMINATOR)
}

/// Checks the guarantee rules for a loan request.
pub fn validate_guarantee(
    total_amount: i128,
    guarantee_amount: i128,
    params: &ProtocolParameters,
) -> (r: Result<(), CreditLineError>)
    ensures
        r == spec_validate_guarantee(total_amount, guarantee_amount, *params),
{
    if total_amount <= 0 || guarantee_amount <= 0 {
        return Err(CreditLineError::InvalidAmount);
    }
    if guarantee_amount > total_amount {
        return Err(CreditLineError::InvalidAmount);
    }
    let p = safe_math::mul_i128(total_amount, params.min_guarantee_percent)?;
    let min_guarantee = safe_math::div_i128(p, 100)?;
    if guarantee_amount < min_guarantee {
        return Err(CreditLineError::InsufficientGuarantee);
    }
    Ok(())
}

/// Interest, service fee and resulting balance of a new loan.
pub fn loan_charges(total_amount: i128, rate_bps: u32) -> (r: Result<
    (i128, i128, i128),
    CreditLineError,
>)
    ensures
        r == spec_loan_charges(total_amount, rate_bps),
{
    let interest = calculate_bps_amount(total_amount, rate_bps as i128)?;
    let fee = calculate_bps_amount(total_amount, SERVICE_FEE_BPS)?;
    let t = safe_math::add_i128(total_amount, interest)?;
    let remaining = safe_math::add_i128(t, fee)?;
    Ok((interest, fee, remaining))
}

/// Reputation gained on full repayment.
pub fn reputation_increase(payment_date: u64, due_date: u64) -> (r: u32)
    ensures
        r == spec_reputation_increase(payment_date, due_date),
        payment_date < due_date ==> r == 15,
        payment_date >= due_date ==> r == 10,
{
    if payment_date < due_date {
        15
    } else {
        10
    }
}

impl CreditLineContract {
    /// Credit limit of a borrower with reputation `score`.
    pub fn credit_limit(score: u32) -> (r: i128)
        ensures
            r == spec_credit_limit(score),
    {
        if score >= 90 {
            10_000
        } else if score >= 75 {
            5_000
        } else if score >= 60 {
            2_500
        } else {
            1_000
        }
    }

    /// Default penalty applied to the borrower of `loan`.
    pub fn calculate_default_penalty(params: &ProtocolParameters, loan: &Loan) -> (r: u32)
        ensures
            r == spec_default_penalty(loan.total_amount, *params),
    {
        if loan.total_amount > params.large_loan_threshold {
            params.large_loan_default_penalty
        } else {
            params.default_penalty
        }
    }

    /// The parameters in force: the reply of the parameters contract when
    /// one is configured and the call succeeded, the defaults otherwise (a
    /// failed call degrades to the defaults).
    pub fn get_protocol_parameters(&self, reply: Option<ProtocolParameters>) -> (r:
        ProtocolParameters)
        ensures
            r == match (self.parameters_contract, reply) {
                (Some(_), Some(p)) => p,
                _ => spec_default_protocol_parameters(),
            },
    {
        match (self.parameters_contract, reply) {
            (Some(_), Some(p)) => p,
            _ => default_protocol_parameters(),
        }
    }

    /// Vendor check: a registry must be configured and report the vendor
    /// active. `vendor_active` is the registry's `is_active` reply (`None`
    /// when the call failed).
    pub open spec fn spec_validate_vendor(self, vendor_active: Option<bool>) -> Result<
        (),
        CreditLineError,
    > {
        if self.vendor_registry is None {
            Err(CreditLineError::InvalidVendor)
        } else {
            match vendor_active {
                None => Err(CreditLineError::VendorValidationFailed),
                Some(false) => Err(CreditLineError::VendorNotActive),
                Some(true) => Ok(()),
            }
        }
    }

    /// Vendor check: a registry must be configured and report the vendor
    /// active.
    pub fn validate_vendor(&self, vendor_active: Option<bool>) -> (r: Result<(), CreditLineError>)
        ensures
            r == self.spec_validate_vendor(vendor_active),
    {
        if self.vendor_registry.is_none() {
            return Err(CreditLineError::InvalidVendor);
        }
        match vendor_active {
            None => Err(CreditLineError::VendorValidationFailed),
            Some(false) => Err(CreditLineError::VendorNotActive),
            Some(true) => Ok(()),
        }
    }

    /// Reputation check: a reputation contract must be configured and the
    /// borrower's `score` must reach the threshold.
    pub open spec fn spec_validate_reputation(self, score: u32, params: ProtocolParameters) -> Result<
        (),
        CreditLineError,
    > {
        if self.reputation_contract is None {
            Err(CreditLineError::ParametersUnavailable)
        } else if score < params.min_reputation_threshold {
            Err(CreditLineError::InsufficientReputation)
        } else {
            Ok(())
        }
    }

    /// Reputation check.
    pub fn validate_reputation(&self, score: u32, params: &ProtocolParameters) -> (r: Result<
        u32,
        CreditLineError,
    >)
        ensures
            r is Ok <==> self.spec_validate_reputation(score, *params) is Ok,
            r is Ok ==> r->Ok_0 == score,
            r is Err ==> self.spec_validate_reputation(score, *params) == Err::<(), CreditLineError>(
                r->Err_0,
            ),
    {
        if self.reputation_contract.is_none() {
            return Err(CreditLineError::ParametersUnavailable);
        }
        if score < params.min_reputation_threshold {
            return Err(CreditLineError::InsufficientReputation);
        }
        Ok(score)
    }

    /// Liquidity check: a pool must be configured and its available
    /// liquidity must cover the part of the loan the guarantee does not.
    pub open spec fn spec_validate_liquidity(
        self,
        total_amount: i128,
        guarantee_amount: i128,
        pool_available: i128,
    ) -> Result<(), CreditLineError> {
        if self.liquidity_pool is None {
            Err(CreditLineError::InsufficientLiquidity)
        } else {
            match total_amount.checked_sub(guarantee_amount) {
                None => Err(CreditLineError::Underflow),
                Some(required) => if required == 0 {
                    Ok(())
                } else if pool_available < required {
                    Err(CreditLineError::InsufficientLiquidity)
                } else {
                    Ok(())
                },
            }
        }
    }

    /// Liquidity check. `pool_available` is the pool's available liquidity.
    pub fn validate_liquidity(
        &self,
        total_amount: i128,
        guarantee_amount: i128,
        pool_available: i128,
    ) -> (r: Result<(), CreditLineError>)
        ensures
            r == self.spec_validate_liquidity(total_amount, guarantee_amount, pool_available),
    {
        if self.liquidity_pool.is_none() {
            return Err(CreditLineError::InsufficientLiquidity);
        }
        let required = safe_math::sub_i128(total_amount, guarantee_amount)?;
        if required == 0 {
            return Ok(());
        }
        if pool_available < required {
            return Err(CreditLineError::InsufficientLiquidity);
        }
        Ok(())
    }
}

/// The rate schedule. With a governed base rate `b > 0`, a borrower pays
/// `b` less 600 basis points from score 90 up, less 400 from 75 to 89, less
/// 200 from 60 to 74 and `b` itself below 60, never below 0. Without a
/// governed rate (`b == 0`) the default rates apply: 400, 600, 800 and
/// 1 000 basis points for the same tiers.
pub proof fn lemma_interest_rate_schedule(b: u32, score: u32)
    ensures
        b > 0 && score >= 90 ==> spec_interest_rate_bps(b, score) == if b >= 600 {
            b - 600
        } else {
            0
        },
        b > 0 && 75 <= score <= 89 ==> spec_interest_rate_bps(b, score) == if b >= 400 {
            b - 400
        } else {
            0
        },
        b > 0 && 60 <= score <= 74 ==> spec_interest_rate_bps(b, score) == if b >= 200 {
            b - 200
        } else {
            0
        },
        b > 0 && score < 60 ==> spec_interest_rate_bps(b, score) == b,
        b == 0 && score >= 90 ==> spec_interest_rate_bps(b, score) == 400,
        b == 0 && 75 <= score <= 89 ==> spec_interest_rate_bps(b, score) == 600,
        b == 0 && 60 <= score <= 74 ==> spec_interest_rate_bps(b, score) == 800,
        b == 0 && score < 60 ==> spec_interest_rate_bps(b, score) == 1_000,
{
}

/// A loan of `total` at `rate` basis points bears `total * rate / 10 000`
/// of interest and a 1% service fee (both rounded down); its balance is the
/// three together.
pub proof fn lemma_loan_charges(total: i128, rate: u32)
    requires
        0 < total <= 1_000_000_000_000_000_000,
    ensures
        spec_loan_charges(total, rate) == Ok::<(i128, i128, i128), CreditLineError>(
            (
                (total * rate / 10_000) as i128,
                (total * 100 / 10_000) as i128,
                (total + total * rate / 10_000 + total * 100 / 10_000) as i128,
            ),
        ),
{
    assert(0 <= total * rate <= 1_000_000_000_000_000_000 * 4_294_967_295) by (nonlinear_arith)
        requires
            0 < total <= 1_000_000_000_000_000_000,
            0 <= rate <= 4_294_967_295,
    ;
    assert(0 <= total * rate / 10_000 <= total * rate) by (nonlinear_arith)
        requires
            0 <= total * rate,
    ;
}

/// Credit limits by score: 10 000 from 90 up, 5 000 from 75, 2 500 from 60,
/// 1 000 below.
pub proof fn lemma_credit_limit_schedule(score: u32)
    ensures
        score >= 90 ==> spec_credit_limit(score) == 10_000,
        75 <= score <= 89 ==> spec_credit_limit(score) == 5_000,
        60 <= score <= 74 ==> spec_credit_limit(score) == 2_500,
        score < 60 ==> spec_credit_limit(score) == 1_000,
{
}

/// The default penalty: a loan above the large-loan threshold draws the
/// large-loan penalty, any other loan the ordinary one.
pub proof fn lemma_default_penalty_by_size(total_amount: i128, params: ProtocolParameters)
    ensures
        total_amount > params.large_loan_threshold ==> spec_default_penalty(total_amount, params)
            == params.large_loan_default_penalty,
        total_amount <= params.large_loan_threshold ==> spec_default_penalty(total_amount, params)
            == params.default_penalty,
{
}

/// Repaying in full before the last due date earns 15 points; on or after
/// it, 10.
pub proof fn lemma_reputation_increase_by_timeliness(payment_date: u64, due_date: u64)
    ensures
        payment_date < due_date ==> spec_reputation_increase(payment_date, due_date) == 15,
        payment_date >= due_date ==> spec_reputation_increase(payment_date, due_date) == 10,
{
}

/// A better score never raises the interest rate.
pub proof fn lemma_interest_rate_monotone(base_interest_bps: u32, s1: u32, s2: u32)
    requires
        s1 <= s2,
    ensures
        spec_interest_rate_bps(base_interest_bps, s2) <= spec_interest_rate_bps(base_interest_bps, s1),
{
}

/// A better score never lowers the credit limit.
pub proof fn lemma_credit_limit_monotone(s1: u32, s2: u32)
    requires
        s1 <= s2,
    ensures
        spec_credit_limit(s1) <= spec_credit_limit(s2),
{
}

} // verus!
