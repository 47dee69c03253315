use vstd::prelude::*;
use crate::Address;
use super::errors::LiquidityPoolError;
use super::safe_math;
use super::shares::{lemma_shares_sum_insert, lemma_shares_sum_nonneg};
use super::storage::LiquidityPoolContract;
use super::types::{
    InterestSplit, Payment, PoolStats, DEAD_SHARES_AMOUNT, LP_FEE_BPS, MIN_AMOUNT,
    PROTOCOL_FEE_BPS, SHARE_PRICE_PRECISION, TOTAL_BPS,
};

verus! {

broadcast use vstd::std_specs::hash::group_hash_axioms;

/// Share price in basis points: 1.0 for a pool without shares, otherwise
/// `(total_liquidity + DEAD_SHARES_AMOUNT) * PRECISION / total_shares`,
/// floored at 1.
pub open spec fn spec_share_price(total_liquidity: i128, total_shares: i128) -> Result<
    i128,
    LiquidityPoolError,
> {
    if total_shares == 0 {
        Ok(SHARE_PRICE_PRECISION)
    } else {
        match total_liquidity.checked_add(DEAD_SHARES_AMOUNT) {
            None => Err(LiquidityPoolError::Overflow),
            Some(e) => match e.checked_mul(SHARE_PRICE_PRECISION) {
                None => Err(LiquidityPoolError::Overflow),
                Some(m) => match m.checked_div(total_shares) {
                    None => Err(LiquidityPoolError::Overflow),
                    Some(p) => if p == 0 {
                        Ok(1)
                    } else {
                        Ok(p)
                    },
                },
            },
        }
    }
}

/// The share price stated directly, for a pool with shares and
/// non-negative liquidity: `(total_liquidity + DEAD_SHARES_AMOUNT) *
/// PRECISION / total_shares`, at least 1, or `Overflow` when the product
/// leaves the `i128` range.
pub proof fn lemma_share_price_formula(total_liquidity: i128, total_shares: i128)
    requires
        total_liquidity >= 0,
        total_shares > 0,
    ensures
        ({
            let m = (total_liquidity + DEAD_SHARES_AMOUNT) * SHARE_PRICE_PRECISION;
            let q = m / (total_shares as int);
            &&& m > i128::MAX ==> spec_share_price(total_liquidity, total_shares) == Err::<
                i128,
                LiquidityPoolError,
            >(LiquidityPoolError::Overflow)
            &&& m <= i128::MAX ==> spec_share_price(total_liquidity, total_shares) == Ok::<
                i128,
                LiquidityPoolError,
            >(if q == 0 { 1 } else { q as i128 })
        }),
{
}

/// For a fixed number of shares, less liquidity never gives a higher share
/// price: when the price of `t0` is defined, so is that of any `t1` in
/// `0..=t0`, and it is no higher.
pub proof fn lemma_share_price_monotone(t1: i128, t0: i128, total_shares: i128)
    requires
        0 <= t1 <= t0,
        total_shares >= 0,
        spec_share_price(t0, total_shares) is Ok,
    ensures
        spec_share_price(t1, total_shares) is Ok,
        spec_share_price(t1, total_shares)->Ok_0 <= spec_share_price(t0, total_shares)->Ok_0,
{
    if total_shares > 0 {
        lemma_share_price_formula(t0, total_shares);
        lemma_share_price_formula(t1, total_shares);
        let m0 = (t0 + DEAD_SHARES_AMOUNT) * SHARE_PRICE_PRECISION;
        let m1 = (t1 + DEAD_SHARES_AMOUNT) * SHARE_PRICE_PRECISION;
        assert(m1 <= m0);
        vstd::arithmetic::div_mod::lemma_div_is_ordered(m1, m0, total_shares as int);
    }
}

/// `a * b / c` with checked arithmetic.
pub open spec fn spec_mul_div(a: i128, b: i128, c: i128) -> Result<i128, LiquidityPoolError> {
    match a.checked_mul(b) {
        None => Err(LiquidityPoolError::Overflow),
        Some(m) => match m.checked_div(c) {
            None => Err(LiquidityPoolError::Overflow),
            Some(q) => Ok(q),
        },
    }
}

/// The 85 / 10 / 5 split of `interest_amount` (the merchant part takes the
/// rounding remainder).
pub open spec fn spec_interest_parts(interest_amount: i128) -> Result<
    (i128, i128, i128),
    LiquidityPoolError,
> {
    match spec_mul_div(interest_amount, LP_FEE_BPS, TOTAL_BPS) {
        Err(e) => Err(e),
        Ok(lp) => match spec_mul_div(interest_amount, PROTOCOL_FEE_BPS, TOTAL_BPS) {
            Err(e) => Err(e),
            Ok(protocol) => Ok((lp, protocol, (interest_amount - lp - protocol) as i128)),
        },
    }
}

/// `a * b / c` with checked arithmetic.
fn mul_div(a: i128, b: i128, c: i128) -> (r: Result<i128, LiquidityPoolError>)
    ensures
        r == spec_mul_div(a, b, c),
{
    let m = safe_math::mul_i128(a, b)?;
    safe_math::div_i128(m, c)
}

/// `a - b` clamped to the `i128` range.
fn saturating_sub(a: i128, b: i128) -> (r: i128)
    ensures
        r == (if a - b > i128::MAX {
            i128::MAX
        } else if a - b < i128::MIN {
            i128::MIN
        } else {
            (a - b) as i128
        }),
{
    match a.checked_sub(b) {
        Some(v) => v,
        None => if b < 0 {
            i128::MAX
        } else {
            i128::MIN
        },
    }
}

/// Share price in basis points for the given totals.
pub fn share_price(total_liquidity: i128, total_shares: i128) -> (r: Result<i128, LiquidityPoolError>)
    ensures
        r == spec_share_price(total_liquidity, total_shares),
        r is Ok && total_liquidity >= 0 && total_shares > 0 ==> r->Ok_0 >= 1,
{
    if total_shares == 0 {
        return Ok(SHARE_PRICE_PRECISION);
    }
    let effective_liquidity = safe_math::add_i128(total_liquidity, DEAD_SHARES_AMOUNT)?;
    let m = safe_math::mul_i128(effective_liquidity, SHARE_PRICE_PRECISION)?;
    let price = safe_math::div_i128(m, total_shares)?;
    if price == 0 {
        Ok(1)
    } else {
        Ok(price)
    }
}

/// The 85 / 10 / 5 split of `interest_amount`.
pub fn interest_parts(interest_amount: i128) -> (r: Result<(i128, i128, i128), LiquidityPoolError>)
    requires
        interest_amount > 0,
    ensures
        r == spec_interest_parts(interest_amount),
        r is Ok ==> r->Ok_0.0 + r->Ok_0.1 + r->Ok_0.2 == interest_amount,
        r is Ok ==> 0 <= r->Ok_0.0 && 0 <= r->Ok_0.1 && 0 <= r->Ok_0.2,
{
    let lp_amount = mul_div(interest_amount, LP_FEE_BPS, TOTAL_BPS)?;
    let protocol_amount = mul_div(interest_amount, PROTOCOL_FEE_BPS, TOTAL_BPS)?;
    proof {
        assert(lp_amount == interest_amount * 8500 / 10000);
        assert(protocol_amount == interest_amount * 1000 / 10000);
        assert(lp_amount + protocol_amount <= interest_amount) by (nonlinear_arith)
            requires
                interest_amount > 0,
                lp_amount == interest_amount * 8500 / 10000,
                protocol_amount == interest_amount * 1000 / 10000,
        ;
        assert(lp_amount >= 0 && protocol_amount >= 0) by (nonlinear_arith)
            requires
                interest_amount > 0,
                lp_amount == interest_amount * 8500 / 10000,
                protocol_amount == interest_amount * 1000 / 10000,
        ;
    }
    let merchant_amount = interest_amount - lp_amount - protocol_amount;
    Ok((lp_amount, protocol_amount, merchant_amount))
}

impl LiquidityPoolContract {
    /// Current share price in basis points.
    pub fn calculate_share_price_internal(&self) -> (r: Result<i128, LiquidityPoolError>)
        ensures
            r == spec_share_price(self.total_liquidity, self.total_shares),
    {
        share_price(self.total_liquidity, self.total_shares)
    }

    /// Current share price in basis points (10000 = 1.0).
    pub fn get_share_price(&self) -> (r: Result<i128, LiquidityPoolError>)
        ensures
            r == spec_share_price(self.total_liquidity, self.total_shares),
    {
        self.calculate_share_price_internal()
    }

    /// Totals, available liquidity (saturating) and share price.
    pub fn get_pool_stats(&self) -> (r: Result<PoolStats, LiquidityPoolError>)
        ensures
            ({
                let p = spec_share_price(self.total_liquidity, self.total_shares);
                let available = self.total_liquidity - self.locked_liquidity;
                &&& r is Ok <==> p is Ok
                &&& r is Err ==> r->Err_0 == p->Err_0
                &&& r is Ok ==> r->Ok_0 == PoolStats {
                    total_liquidity: self.total_liquidity,
                    locked_liquidity: self.locked_liquidity,
                    available_liquidity: if available > i128::MAX {
                        i128::MAX
                    } else if available < i128::MIN {
                        i128::MIN
                    } else {
                        available as i128
                    },
                    total_shares: self.total_shares,
                    share_price: p->Ok_0,
                }
            }),
    {
        let share_price = self.calculate_share_price_internal()?;
        Ok(
            PoolStats {
                total_liquidity: self.total_liquidity,
                locked_liquidity: self.locked_liquidity,
                available_liquidity: saturating_sub(self.total_liquidity, self.locked_liquidity),
                total_shares: self.total_shares,
                share_price,
            },
        )
    }

    /// Tokens `shares` are worth at the current price; 0 when there are no
    /// shares or the arithmetic fails.
    pub fn calculate_withdrawal(&self, shares: i128) -> (r: i128)
        ensures
            r == (if shares == 0 || self.total_shares == 0 {
                0
            } else {
                let price = match spec_share_price(self.total_liquidity, self.total_shares) {
                    Ok(p) => p,
                    Err(_) => SHARE_PRICE_PRECISION,
                };
                match shares.checked_mul(price) {
                    None => 0,
                    Some(m) => m.checked_div(SHARE_PRICE_PRECISION)->Some_0,
                }
            }),
    {
        if shares == 0 {
            return 0;
        }
        if self.total_shares == 0 {
            return 0;
        }
        let price = match self.calculate_share_price_internal() {
            Ok(p) => p,
            Err(_) => SHARE_PRICE_PRECISION,
        };
        let m = match shares.checked_mul(price) {
            Some(m) => m,
            None => 0,
        };
        match m.checked_div(SHARE_PRICE_PRECISION) {
            Some(q) => q,
            None => 0,
        }
    }

    /// Every check `deposit` performs, in order; the shares issued when all
    /// pass.
    pub open spec fn spec_deposit(self, provider: Address, amount: i128) -> Result<
        i128,
        LiquidityPoolError,
    > {
        let ts0 = if self.total_shares == 0 {
            DEAD_SHARES_AMOUNT
        } else {
            self.total_shares
        };
        if self.paused {
            Err(LiquidityPoolError::ContractPaused)
        } else if amount < MIN_AMOUNT {
            Err(LiquidityPoolError::InvalidAmount)
        } else if self.reentrancy_locked {
            Err(LiquidityPoolError::ReentrancyDetected)
        } else {
            match spec_share_price(self.total_liquidity, ts0) {
                Err(e) => Err(e),
                Ok(price) => match spec_mul_div(amount, SHARE_PRICE_PRECISION, price) {
                    Err(e) => Err(e),
                    Ok(shares) => if shares <= 0 {
                        Err(LiquidityPoolError::InvalidAmount)
                    } else if self.token is None {
                        Err(LiquidityPoolError::NotInitialized)
                    } else if self.spec_lp_shares(provider) + shares > i128::MAX {
                        Err(LiquidityPoolError::Overflow)
                    } else if ts0 + shares > i128::MAX {
                        Err(LiquidityPoolError::Overflow)
                    } else if self.total_liquidity + amount > i128::MAX {
                        Err(LiquidityPoolError::Overflow)
                    } else {
                        Ok(shares)
                    },
                },
            }
        }
    }

    /// Deposits `amount` tokens for `provider`, who receives
    /// `amount * PRECISION / share_price` shares (rounded down). The first
    /// deposit into an empty pool also mints the dead shares. The caller
    /// moves `amount` tokens from the provider into the pool.
    pub fn deposit(&mut self, provider: Address, amount: i128) -> (r: Result<
        i128,
        LiquidityPoolError,
    >)
        requires
            old(self).wf(),
        ensures
            final(self).wf(),
            ({
                let c = old(self).spec_deposit(provider, amount);
                let ts0 = if old(self).total_shares == 0 {
                    DEAD_SHARES_AMOUNT
                } else {
                    old(self).total_shares
                };
                &&& r == c
                &&& r is Err ==> *final(self) == *old(self)
                &&& r is Ok ==> {
                    &&& final(self).lp_shares@ == old(self).lp_shares@.insert(
                        provider,
                        (old(self).spec_lp_shares(provider) + r->Ok_0) as i128,
                    )
                    &&& final(self).total_shares == ts0 + r->Ok_0
                    &&& final(self).total_liquidity == old(self).total_liquidity + amount
                    &&& final(self).locked_liquidity == old(self).locked_liquidity
                    &&& final(self).merchant_funded@ == old(self).merchant_funded@
                    &&& final(self).outflow_window_seq == old(self).outflow_window_seq
                    &&& final(self).outflow_window_used == old(self).outflow_window_used
                    &&& final(self).config_eq(*old(self))
                }
            }),
    {
        if self.paused {
            return Err(LiquidityPoolError::ContractPaused);
        }
        if amount < MIN_AMOUNT {
            return Err(LiquidityPoolError::InvalidAmount);
        }
        if self.reentrancy_locked {
            return Err(LiquidityPoolError::ReentrancyDetected);
        }
        let ts0 = if self.total_shares == 0 {
            DEAD_SHARES_AMOUNT
        } else {
            self.total_shares
        };
        let price = share_price(self.total_liquidity, ts0)?;
        let shares_issued = mul_div(amount, SHARE_PRICE_PRECISION, price)?;
        if shares_issued <= 0 {
            return Err(LiquidityPoolError::InvalidAmount);
        }
        let _token = self.get_token()?;
        let provider_shares = self.get_lp_shares(provider);
        let new_shares = safe_math::add_i128(provider_shares, shares_issued)?;
        let new_total_shares = safe_math::add_i128(ts0, shares_issued)?;
        let new_total_liquidity = safe_math::add_i128(self.total_liquidity, amount)?;
        proof {
            lemma_shares_sum_insert(self.lp_shares@, provider, new_shares);
            lemma_shares_sum_nonneg(self.lp_shares@);
        }
        self.lp_shares.insert(provider, new_shares);
        self.total_shares = new_total_shares;
        self.total_liquidity = new_total_liquidity;
        Ok(shares_issued)
    }

    /// Every check `withdraw` performs, in order; the tokens returned when
    /// all pass.
    pub open spec fn spec_withdraw(self, provider: Address, shares: i128) -> Result<
        i128,
        LiquidityPoolError,
    > {
        if self.paused {
            Err(LiquidityPoolError::ContractPaused)
        } else if shares <= 0 {
            Err(LiquidityPoolError::InvalidAmount)
        } else if self.reentrancy_locked {
            Err(LiquidityPoolError::ReentrancyDetected)
        } else if self.spec_lp_shares(provider) < shares {
            Err(LiquidityPoolError::InsufficientShares)
        } else {
            match spec_share_price(self.total_liquidity, self.total_shares) {
                Err(e) => Err(e),
                Ok(price) => match spec_mul_div(shares, price, SHARE_PRICE_PRECISION) {
                    Err(e) => Err(e),
                    Ok(amount) => if amount > self.total_liquidity - self.locked_liquidity {
                        Err(LiquidityPoolError::InsufficientLiquidity)
                    } else if self.total_shares - shares < i128::MIN {
                        Err(LiquidityPoolError::Underflow)
                    } else if self.total_liquidity - amount > i128::MAX {
                        Err(LiquidityPoolError::Underflow)
                    } else if self.token is None {
                        Err(LiquidityPoolError::NotInitialized)
                    } else {
                        Ok(amount)
                    },
                },
            }
        }
    }

    /// Burns `shares` of `provider` and returns the tokens they are worth,
    /// `shares * share_price / PRECISION` (rounded down), which must not
    /// exceed the available liquidity. The caller moves the tokens out.
    pub fn withdraw(&mut self, provider: Address, shares: i128) -> (r: Result<
        i128,
        LiquidityPoolError,
    >)
        requires
            old(self).wf(),
        ensures
            final(self).wf(),
            ({
                let c = old(self).spec_withdraw(provider, shares);
                &&& r == c
                &&& r is Err ==> *final(self) == *old(self)
                &&& r is Ok ==> {
                    &&& final(self).lp_shares@ == old(self).lp_shares@.insert(
                        provider,
                        (old(self).spec_lp_shares(provider) - shares) as i128,
                    )
                    &&& final(self).total_shares == old(self).total_shares - shares
                    &&& final(self).total_liquidity == old(self).total_liquidity - r->Ok_0
                    &&& final(self).locked_liquidity == old(self).locked_liquidity
                    &&& final(self).merchant_funded@ == old(self).merchant_funded@
                    &&& final(self).outflow_window_seq == old(self).outflow_window_seq
                    &&& final(self).outflow_window_used == old(self).outflow_window_used
                    &&& final(self).config_eq(*old(self))
                }
            }),
    {
        if self.paused {
            return Err(LiquidityPoolError::ContractPaused);
        }
        if shares <= 0 {
            return Err(LiquidityPoolError::InvalidAmount);
        }
        if self.reentrancy_locked {
            return Err(LiquidityPoolError::ReentrancyDetected);
        }
        let provider_shares = self.get_lp_shares(provider);
        if provider_shares < shares {
            return Err(LiquidityPoolError::InsufficientShares);
        }
        let price = self.calculate_share_price_internal()?;
        let amount_returned = mul_div(shares, price, SHARE_PRICE_PRECISION)?;
        let available = self.total_liquidity - self.locked_liquidity;
        if amount_returned > available {
            return Err(LiquidityPoolError::InsufficientLiquidity);
        }
        let new_total_shares = safe_math::sub_i128(self.total_shares, shares)?;
        let new_total_liquidity = safe_math::sub_i128(self.total_liquidity, amount_returned)?;
        let _token = self.get_token()?;
        proof {
            lemma_shares_sum_insert(self.lp_shares@, provider, (provider_shares - shares) as i128);
            lemma_shares_sum_nonneg(self.lp_shares@.insert(provider, (provider_shares - shares) as i128));
        }
        self.lp_shares.insert(provider, provider_shares - shares);
        self.total_shares = new_total_shares;
        self.total_liquidity = new_total_liquidity;
        Ok(amount_returned)
    }

    /// Split of `interest_amount` and the transfers it causes, when valid.
    pub open spec fn spec_distribute(self, interest_amount: i128) -> Result<
        InterestSplit,
        LiquidityPoolError,
    > {
        if interest_amount <= 0 {
            Err(LiquidityPoolError::InvalidAmount)
        } else {
            match spec_interest_parts(interest_amount) {
                Err(e) => Err(e),
                Ok(parts) => {
                    let retained = parts.0 + (if self.treasury is None {
                        parts.1
                    } else {
                        0
                    }) + (if self.merchant_fund is None {
                        parts.2
                    } else {
                        0
                    });
                    if self.token is None {
                        Err(LiquidityPoolError::NotInitialized)
                    } else if self.total_liquidity + retained > i128::MAX {
                        Err(LiquidityPoolError::Overflow)
                    } else {
                        Ok(
                            InterestSplit {
                                lp_amount: parts.0,
                                protocol_amount: parts.1,
                                merchant_amount: parts.2,
                                retained_amount: retained as i128,
                                treasury_payment: if parts.1 > 0 && self.treasury is Some {
                                    Some(Payment { to: self.treasury->Some_0, amount: parts.1 })
                                } else {
                                    None
                                },
                                merchant_fund_payment: if parts.2 > 0 && self.merchant_fund is Some {
                                    Some(
                                        Payment { to: self.merchant_fund->Some_0, amount: parts.2 },
                                    )
                                } else {
                                    None
                                },
                            },
                        )
                    }
                },
            }
        }
    }

    /// Splits `interest_amount`: 85% for the providers, 10% for the
    /// treasury and the remainder for the merchant fund. A part whose
    /// recipient is not configured stays in the pool for the providers; what
    /// stays raises `total_liquidity` (and so the share price).
    pub fn distribute_interest_internal(&mut self, interest_amount: i128) -> (r: Result<
        InterestSplit,
        LiquidityPoolError,
    >)
        requires
            old(self).wf(),
        ensures
            final(self).wf(),
            r == old(self).spec_distribute(interest_amount),
            r is Err ==> *final(self) == *old(self),
            r is Ok ==> final(self).total_liquidity == old(self).total_liquidity
                + r->Ok_0.retained_amount && r->Ok_0.lp_amount + r->Ok_0.protocol_amount + r->Ok_0.merchant_amount
                == interest_amount && r->Ok_0.lp_amount >= 0 && r->Ok_0.protocol_amount >= 0
                && r->Ok_0.merchant_amount >= 0 && final(self).total_shares == old(
                self).total_shares && final(self).locked_liquidity == old(self).locked_liquidity
                && final(self).lp_shares@ == old(self).lp_shares@ && final(self).merchant_funded@
                == old(self).merchant_funded@ && final(self).outflow_window_seq == old(
                self).outflow_window_seq && final(self).outflow_window_used == old(
                self).outflow_window_used && final(self).config_eq(*old(self)),
    {
        if interest_amount <= 0 {
            return Err(LiquidityPoolError::InvalidAmount);
        }
        let (lp_amount, protocol_amount, merchant_amount) = interest_parts(interest_amount)?;
        let _token = self.get_token()?;
        let mut retained_amount = lp_amount;
        if self.treasury.is_none() {
            retained_amount = retained_amount + protocol_amount;
        }
        if self.merchant_fund.is_none() {
            retained_amount = retained_amount + merchant_amount;
        }
        let new_total = safe_math::add_i128(self.total_liquidity, retained_amount)?;
        let treasury_payment = if protocol_amount > 0 && self.treasury.is_some() {
            Some(Payment { to: self.treasury.unwrap(), amount: protocol_amount })
        } else {
            None
        };
        let merchant_fund_payment = if merchant_amount > 0 && self.merchant_fund.is_some() {
            Some(Payment { to: self.merchant_fund.unwrap(), amount: merchant_amount })
        } else {
            None
        };
        self.total_liquidity = new_total;
        Ok(
            InterestSplit {
                lp_amount,
                protocol_amount,
                merchant_amount,
                retained_amount,
                treasury_payment,
                merchant_fund_payment,
            },
        )
    }
}

/// A deposit is priced on the pool's whole liquidity, the lent-out part
/// included: it issues `amount * PRECISION / p` shares, `p` being
/// `(total_liquidity + DEAD_SHARES_AMOUNT) * PRECISION` over the shares
/// outstanding (the dead shares alone for an empty pool), at least 1.
pub proof fn lemma_deposit_priced_on_total_liquidity(
    pool: LiquidityPoolContract,
    provider: Address,
    amount: i128,
)
    requires
        pool.wf(),
        pool.spec_deposit(provider, amount) is Ok,
    ensures
        ({
            let ts0: int = if pool.total_shares == 0 {
                DEAD_SHARES_AMOUNT as int
            } else {
                pool.total_shares as int
            };
            let q = (pool.total_liquidity + 1_000) * 10_000 / ts0;
            let p = if q == 0 {
                1
            } else {
                q
            };
            pool.spec_deposit(provider, amount)->Ok_0 == amount * 10_000 / p
        }),
{
    assert(pool.total_shares >= 0) by {
        assert(pool.lp_shares@.dom().finite());
        lemma_shares_sum_nonneg(pool.lp_shares@);
    }
    let ts0 = if pool.total_shares == 0 {
        DEAD_SHARES_AMOUNT
    } else {
        pool.total_shares
    };
    lemma_share_price_formula(pool.total_liquidity, ts0);
}

/// How much of the pool is lent out does not change what a deposit
/// gets: two pools that differ only in locked liquidity answer a deposit
/// alike.
pub proof fn lemma_deposit_ignores_locked_liquidity(
    pool: LiquidityPoolContract,
    provider: Address,
    amount: i128,
    locked: i128,
)
    ensures
        (LiquidityPoolContract { locked_liquidity: locked, ..pool }).spec_deposit(provider, amount)
            == pool.spec_deposit(provider, amount),
{
}

/// A withdrawal pays `shares` at the current share price: `shares * p /
/// PRECISION` tokens, `p` being `(total_liquidity + DEAD_SHARES_AMOUNT) *
/// PRECISION` over the shares outstanding, at least 1, and never more than
/// the liquidity not lent out.
pub proof fn lemma_withdraw_priced_on_total_liquidity(
    pool: LiquidityPoolContract,
    provider: Address,
    shares: i128,
)
    requires
        pool.wf(),
        pool.spec_withdraw(provider, shares) is Ok,
    ensures
        ({
            let q = (pool.total_liquidity + 1_000) * 10_000 / (pool.total_shares as int);
            let p = if q == 0 {
                1
            } else {
                q
            };
            &&& pool.spec_withdraw(provider, shares)->Ok_0 == shares * p / 10_000
            &&& pool.spec_withdraw(provider, shares)->Ok_0 <= pool.total_liquidity
                - pool.locked_liquidity
        }),
{
    assert(pool.total_shares > 0) by {
        assert(pool.lp_shares@.dom().finite());
        lemma_shares_sum_nonneg(pool.lp_shares@);
        if pool.total_shares == 0 {
            assert(pool.lp_shares@.contains_key(provider));
            lemma_shares_sum_insert(pool.lp_shares@, provider, 0);
            lemma_shares_sum_nonneg(pool.lp_shares@.insert(provider, 0));
        }
    }
    lemma_share_price_formula(pool.total_liquidity, pool.total_shares);
}

/// Interest is split 85% to the providers and 10% to the protocol (each
/// rounded down), the merchant fund taking the rest.
pub proof fn lemma_interest_split_shares(interest_amount: i128)
    requires
        0 < interest_amount <= i128::MAX / 10_000,
    ensures
        spec_interest_parts(interest_amount) == Ok::<(i128, i128, i128), LiquidityPoolError>(
            (
                (interest_amount * 8_500 / 10_000) as i128,
                (interest_amount * 1_000 / 10_000) as i128,
                (interest_amount - interest_amount * 8_500 / 10_000 - interest_amount * 1_000
                    / 10_000) as i128,
            ),
        ),
{
}

/// The first deposit into an empty pool is priced 1:1: it mints exactly
/// `amount` shares (besides the dead shares).
pub proof fn lemma_first_deposit_one_to_one(
    pool: LiquidityPoolContract,
    provider: Address,
    amount: i128,
)
    requires
        pool.total_shares == 0,
        pool.total_liquidity == 0,
        !pool.paused,
        !pool.reentrancy_locked,
        pool.token is Some,
        pool.spec_lp_shares(provider) == 0,
        MIN_AMOUNT <= amount <= i128::MAX / SHARE_PRICE_PRECISION,
    ensures
        pool.spec_deposit(provider, amount) == Ok::<i128, LiquidityPoolError>(amount),
{
    assert(spec_share_price(0, DEAD_SHARES_AMOUNT) == Ok::<i128, LiquidityPoolError>(
        SHARE_PRICE_PRECISION,
    ));
    assert(amount * 10000int / 10000int == amount) by (nonlinear_arith)
        requires
            amount > 0,
    ;
}

/// A pool whose only deposit was `amount` (and that has not earned or lost
/// anything) prices shares at exactly 1.0, so withdrawing those shares
/// returns exactly the deposit.
pub proof fn lemma_sole_depositor_round_trip(
    pool: LiquidityPoolContract,
    provider: Address,
    amount: i128,
)
    requires
        pool.total_shares == DEAD_SHARES_AMOUNT + amount,
        pool.total_liquidity == amount,
        pool.locked_liquidity == 0,
        pool.spec_lp_shares(provider) == amount,
        !pool.paused,
        !pool.reentrancy_locked,
        pool.token is Some,
        MIN_AMOUNT <= amount <= i128::MAX / SHARE_PRICE_PRECISION - DEAD_SHARES_AMOUNT,
    ensures
        spec_share_price(pool.total_liquidity, pool.total_shares) == Ok::<i128, LiquidityPoolError>(
            SHARE_PRICE_PRECISION,
        ),
        pool.spec_withdraw(provider, amount) == Ok::<i128, LiquidityPoolError>(amount),
{
    let e: int = amount + DEAD_SHARES_AMOUNT;
    assert(e * 10000int / e == 10000int) by (nonlinear_arith)
        requires
            e > 0,
    ;
    assert(amount * 10000int / 10000int == amount) by (nonlinear_arith)
        requires
            amount > 0,
    ;
}

/// A deposit into a pool whose liquidity was wiped out by losses still
/// succeeds, and mints at least one share per token: the virtual backing of
/// the dead shares keeps the share price positive and at most 1.0.
pub proof fn lemma_deposit_after_total_loss(
    pool: LiquidityPoolContract,
    provider: Address,
    amount: i128,
)
    requires
        pool.total_liquidity == 0,
        pool.total_shares >= DEAD_SHARES_AMOUNT,
        !pool.paused,
        !pool.reentrancy_locked,
        pool.token is Some,
        pool.spec_lp_shares(provider) >= 0,
        MIN_AMOUNT <= amount,
        amount * SHARE_PRICE_PRECISION + pool.spec_lp_shares(provider) <= i128::MAX,
        amount * SHARE_PRICE_PRECISION + pool.total_shares <= i128::MAX,
    ensures
        pool.spec_deposit(provider, amount) is Ok,
        pool.spec_deposit(provider, amount)->Ok_0 >= amount,
{
    let ts = pool.total_shares;
    let m: int = DEAD_SHARES_AMOUNT * SHARE_PRICE_PRECISION;
    let q: int = m / (ts as int);
    assert(q <= SHARE_PRICE_PRECISION) by (nonlinear_arith)
        requires
            q == m / (ts as int),
            m == 10_000_000,
            ts >= 1000,
    ;
    assert(q >= 0) by (nonlinear_arith)
        requires
            q == m / (ts as int),
            m == 10_000_000,
            ts >= 1000,
    ;
    let price: int = if q == 0 {
        1
    } else {
        q
    };
    assert(spec_share_price(0, ts) == Ok::<i128, LiquidityPoolError>(price as i128));
    let shares: int = (amount * SHARE_PRICE_PRECISION) / price;
    assert(amount <= shares <= amount * SHARE_PRICE_PRECISION) by (nonlinear_arith)
        requires
            shares == (amount * 10_000) / price,
            1 <= price <= 10_000,
            amount >= 1000,
    ;
}

/// Once anything was deposited, the dead shares keep their part of the
/// pool: no provider ever holds more than the shares outstanding minus the
/// dead shares, so no depositor can own the whole pool and its yield.
pub proof fn lemma_dead_shares_never_owned(pool: LiquidityPoolContract, provider: Address)
    requires
        pool.wf(),
        pool.total_shares != 0,
    ensures
        pool.spec_lp_shares(provider) + DEAD_SHARES_AMOUNT <= pool.total_shares,
{
    let m = pool.lp_shares@;
    assert(m.dom().finite());
    if m.contains_key(provider) {
        lemma_shares_sum_insert(m, provider, 0);
        assert forall|x: Address| #[trigger] m.insert(provider, 0).contains_key(x) implies m.insert(
            provider,
            0,
        )[x] >= 0 by {
            if x != provider {
                assert(m.contains_key(x));
            }
        }
        lemma_shares_sum_nonneg(m.insert(provider, 0));
    } else {
        lemma_shares_sum_nonneg(m);
    }
}

} // verus!
