use vstd::prelude::*;
use crate::Address;
use super::errors::LiquidityPoolError;
use super::pool::{lemma_share_price_monotone, spec_mul_div, spec_share_price};
use super::safe_math;
use super::shares::lemma_shares_sum_nonneg;
use super::storage::LiquidityPoolContract;
use super::types::{FundingReceipt, InterestSplit, TOTAL_BPS};

verus! {

broadcast use vstd::std_specs::hash::group_hash_axioms;

impl LiquidityPoolContract {
    /// `caller` must be the registered credit line.
    pub open spec fn spec_require_creditline(self, caller: Address) -> Result<(), LiquidityPoolError> {
        if self.creditline == Some(caller) {
            Ok(())
        } else {
            Err(LiquidityPoolError::NotCreditLine)
        }
    }

    /// `caller` must be the registered credit line.
    pub fn require_creditline(&self, caller: Address) -> (r: Result<(), LiquidityPoolError>)
        ensures
            r == self.spec_require_creditline(caller),
    {
        match self.creditline {
            Some(c) => if c == caller {
                Ok(())
            } else {
                Err(LiquidityPoolError::NotCreditLine)
            },
            None => Err(LiquidityPoolError::NotCreditLine),
        }
    }

    /// Outflow cap for this call and the window's new use, when a cap is set.
    pub open spec fn spec_outflow(self, available: i128, amount: i128, ledger_sequence: u32) -> Result<
        (i128, i128),
        LiquidityPoolError,
    > {
        match spec_mul_div(available, self.outflow_cap_bps as i128, TOTAL_BPS) {
            Err(e) => Err(e),
            Ok(cap) => {
                let used = if self.outflow_window_seq == ledger_sequence {
                    self.outflow_window_used
                } else {
                    0
                };
                if used + amount > i128::MAX || used + amount < i128::MIN {
                    Err(LiquidityPoolError::Overflow)
                } else if used + amount > cap {
                    Err(LiquidityPoolError::OutflowCapExceeded)
                } else {
                    Ok((cap, (used + amount) as i128))
                }
            },
        }
    }

    /// Every check `fund_loan` performs, in order.
    pub open spec fn spec_fund_loan(
        self,
        creditline: Address,
        merchant: Address,
        amount: i128,
        ledger_sequence: u32,
        vendor_active: bool,
    ) -> Result<(), LiquidityPoolError> {
        let available = self.total_liquidity - self.locked_liquidity;
        let new_funded = self.spec_merchant_funded(merchant) + amount;
        if self.paused {
            Err(LiquidityPoolError::ContractPaused)
        } else if self.spec_require_creditline(creditline) is Err {
            Err(LiquidityPoolError::NotCreditLine)
        } else if amount <= 0 {
            Err(LiquidityPoolError::InvalidAmount)
        } else if self.vendor_registry is Some && !vendor_active {
            Err(LiquidityPoolError::VendorNotActive)
        } else if self.reentrancy_locked {
            Err(LiquidityPoolError::ReentrancyDetected)
        } else if amount > available {
            Err(LiquidityPoolError::InsufficientLiquidity)
        } else if self.outflow_cap_bps > 0 && self.spec_outflow(
            available as i128,
            amount,
            ledger_sequence,
        ) is Err {
            Err(self.spec_outflow(available as i128, amount, ledger_sequence)->Err_0)
        } else if new_funded > i128::MAX {
            Err(LiquidityPoolError::Overflow)
        } else if self.merchant_exposure_cap > 0 && new_funded > self.merchant_exposure_cap {
            Err(LiquidityPoolError::MerchantExposureCapExceeded)
        } else if self.token is None {
            Err(LiquidityPoolError::NotInitialized)
        } else {
            Ok(())
        }
    }

    /// `new` is `self` after funding `amount` to `merchant` at
    /// `ledger_sequence`: the amount is locked, the merchant's cumulative
    /// funding grows by it, and with a cap set the window moves to this
    /// ledger and counts the amount.
    pub open spec fn spec_funded_state(
        self,
        new: Self,
        merchant: Address,
        amount: i128,
        ledger_sequence: u32,
    ) -> bool {
        let available = (self.total_liquidity - self.locked_liquidity) as i128;
        &&& new.locked_liquidity == self.locked_liquidity + amount
        &&& new.total_liquidity == self.total_liquidity
        &&& new.merchant_funded@ == self.merchant_funded@.insert(
            merchant,
            (self.spec_merchant_funded(merchant) + amount) as i128,
        )
        &&& new.config_eq(self)
        &&& self.outflow_cap_bps > 0 ==> new.outflow_window_seq == ledger_sequence
            && new.outflow_window_used == self.spec_outflow(
            available,
            amount,
            ledger_sequence,
        )->Ok_0.1
        &&& self.outflow_cap_bps == 0 ==> new.outflow_window_seq == self.outflow_window_seq
            && new.outflow_window_used == self.outflow_window_used
    }

    /// Pays `amount` from the pool to `merchant` for a loan; only the
    /// registered credit line may call. When a vendor registry is set the
    /// merchant must be an active vendor (`vendor_active` is the registry's
    /// reply, false when the call failed). The amount must fit the available
    /// liquidity, the per-ledger outflow cap (a fraction of the available
    /// liquidity, counted over calls within `ledger_sequence`) and the
    /// merchant's cumulative exposure cap; disabled caps are skipped but the
    /// merchant's cumulative funding is tracked regardless. The amount
    /// becomes locked liquidity.
    pub fn fund_loan(
        &mut self,
        creditline: Address,
        merchant: Address,
        amount: i128,
        ledger_sequence: u32,
        vendor_active: bool,
    ) -> (r: Result<FundingReceipt, LiquidityPoolError>)
        requires
            old(self).wf(),
        ensures
            final(self).wf(),
            ({
                let c = old(self).spec_fund_loan(
                    creditline,
                    merchant,
                    amount,
                    ledger_sequence,
                    vendor_active,
                );
                let available = (old(self).total_liquidity - old(self).locked_liquidity) as i128;
                let out = old(self).spec_outflow(available, amount, ledger_sequence);
                let new_funded = (old(self).spec_merchant_funded(merchant) + amount) as i128;
                &&& r is Ok <==> c is Ok
                &&& r is Err ==> r->Err_0 == c->Err_0 && *final(self) == *old(self)
                &&& r is Ok ==> {
                    &&& final(self).locked_liquidity == old(self).locked_liquidity + amount
                    &&& final(self).merchant_funded@ == old(self).merchant_funded@.insert(
                        merchant,
                        new_funded,
                    )
                    &&& old(self).outflow_cap_bps > 0 ==> {
                        &&& final(self).outflow_window_seq == ledger_sequence
                        &&& final(self).outflow_window_used == out->Ok_0.1
                        &&& final(self).outflow_window_used <= out->Ok_0.0
                        &&& r->Ok_0.outflow_remaining == out->Ok_0.0 - out->Ok_0.1
                    }
                    &&& old(self).outflow_cap_bps == 0 ==> {
                        &&& final(self).outflow_window_seq == old(self).outflow_window_seq
                        &&& final(self).outflow_window_used == old(self).outflow_window_used
                        &&& r->Ok_0.outflow_remaining == 0
                    }
                    &&& old(self).merchant_exposure_cap > 0 ==> new_funded
                        <= old(self).merchant_exposure_cap && r->Ok_0.merchant_remaining
                        == old(self).merchant_exposure_cap - new_funded
                    &&& old(self).merchant_exposure_cap == 0 ==> r->Ok_0.merchant_remaining == 0
                    &&& final(self).total_liquidity == old(self).total_liquidity
                    &&& final(self).total_shares == old(self).total_shares
                    &&& final(self).lp_shares@ == old(self).lp_shares@
                    &&& final(self).config_eq(*old(self))
                    &&& old(self).spec_funded_state(*final(self), merchant, amount, ledger_sequence)
                }
            }),
    {
        if self.paused {
            return Err(LiquidityPoolError::ContractPaused);
        }
        self.require_creditline(creditline)?;
        if amount <= 0 {
            return Err(LiquidityPoolError::InvalidAmount);
        }
        if self.vendor_registry.is_some() && !vendor_active {
            return Err(LiquidityPoolError::VendorNotActive);
        }
        if self.reentrancy_locked {
            return Err(LiquidityPoolError::ReentrancyDetected);
        }
        let available = self.total_liquidity - self.locked_liquidity;
        if amount > available {
            return Err(LiquidityPoolError::InsufficientLiquidity);
        }
        let mut outflow_remaining: i128 = 0;
        let mut window: (u32, i128) = (self.outflow_window_seq, self.outflow_window_used);
        if self.outflow_cap_bps > 0 {
            let m = safe_math::mul_i128(available, self.outflow_cap_bps as i128)?;
            let outflow_cap = safe_math::div_i128(m, TOTAL_BPS)?;
            let used = if self.outflow_window_seq == ledger_sequence {
                self.outflow_window_used
            } else {
                0
            };
            let new_used = safe_math::add_i128(used, amount)?;
            if new_used > outflow_cap {
                return Err(LiquidityPoolError::OutflowCapExceeded);
            }
            window = (ledger_sequence, new_used);
            outflow_remaining = outflow_cap - new_used;
        }
        let funded_so_far = self.get_merchant_funded(merchant);
        let new_funded = safe_math::add_i128(funded_so_far, amount)?;
        let mut merchant_remaining: i128 = 0;
        if self.merchant_exposure_cap > 0 {
            if new_funded > self.merchant_exposure_cap {
                return Err(LiquidityPoolError::MerchantExposureCapExceeded);
            }
            merchant_remaining = self.merchant_exposure_cap - new_funded;
        }
        let _token = self.get_token()?;
        self.outflow_window_seq = window.0;
        self.outflow_window_used = window.1;
        self.merchant_funded.insert(merchant, new_funded);
        self.locked_liquidity = self.locked_liquidity + amount;
        Ok(FundingReceipt { outflow_remaining, merchant_remaining })
    }

    /// Every check `receive_repayment` performs, in order.
    pub open spec fn spec_receive_repayment(self, creditline: Address, principal: i128, interest: i128) -> Result<
        Option<InterestSplit>,
        LiquidityPoolError,
    > {
        if self.spec_require_creditline(creditline) is Err {
            Err(LiquidityPoolError::NotCreditLine)
        } else if principal < 0 || interest < 0 {
            Err(LiquidityPoolError::InvalidAmount)
        } else if principal + interest > i128::MAX {
            Err(LiquidityPoolError::Overflow)
        } else if principal + interest <= 0 {
            Err(LiquidityPoolError::InvalidAmount)
        } else if self.reentrancy_locked {
            Err(LiquidityPoolError::ReentrancyDetected)
        } else if self.token is None {
            Err(LiquidityPoolError::NotInitialized)
        } else if interest > 0 {
            match self.spec_distribute(interest) {
                Err(e) => Err(e),
                Ok(split) => Ok(Some(split)),
            }
        } else {
            Ok(None)
        }
    }

    /// A repayment forwarded by the credit line: the principal part unlocks
    /// liquidity (never below zero) and a positive interest part is
    /// distributed. Works while paused, so borrowers can always settle. The
    /// caller moves `principal + interest` tokens into the pool.
    pub fn receive_repayment(&mut self, creditline: Address, principal: i128, interest: i128) -> (r:
        Result<Option<InterestSplit>, LiquidityPoolError>)
        requires
            old(self).wf(),
        ensures
            final(self).wf(),
            r == old(self).spec_receive_repayment(creditline, principal, interest),
            r is Err ==> *final(self) == *old(self),
            r is Ok ==> {
                &&& final(self).locked_liquidity == (if old(self).locked_liquidity - principal
                    > 0 {
                    old(self).locked_liquidity - principal
                } else {
                    0
                })
                &&& final(self).total_liquidity == old(self).total_liquidity + match r->Ok_0 {
                    Some(split) => split.retained_amount,
                    None => 0,
                }
                &&& final(self).total_shares == old(self).total_shares
                &&& final(self).lp_shares@ == old(self).lp_shares@
                &&& final(self).merchant_funded@ == old(self).merchant_funded@
                &&& final(self).outflow_window_seq == old(self).outflow_window_seq
                &&& final(self).outflow_window_used == old(self).outflow_window_used
                &&& final(self).config_eq(*old(self))
            },
    {
        self.require_creditline(creditline)?;
        if principal < 0 || interest < 0 {
            return Err(LiquidityPoolError::InvalidAmount);
        }
        let total = safe_math::add_i128(principal, interest)?;
        if total <= 0 {
            return Err(LiquidityPoolError::InvalidAmount);
        }
        if self.reentrancy_locked {
            return Err(LiquidityPoolError::ReentrancyDetected);
        }
        let _token = self.get_token()?;
        let reduced = self.locked_liquidity - principal;
        let new_locked = if reduced > 0 {
            reduced
        } else {
            0
        };
        if interest > 0 {
            let split = self.distribute_interest_internal(interest)?;
            self.locked_liquidity = new_locked;
            Ok(Some(split))
        } else {
            self.locked_liquidity = new_locked;
            Ok(None)
        }
    }

    /// Every check `receive_guarantee` performs, in order.
    pub open spec fn spec_receive_guarantee(self, creditline: Address, amount: i128) -> Result<
        (),
        LiquidityPoolError,
    > {
        let recovered = if amount < self.locked_liquidity {
            amount
        } else {
            self.locked_liquidity
        };
        if self.paused {
            Err(LiquidityPoolError::ContractPaused)
        } else if self.spec_require_creditline(creditline) is Err {
            Err(LiquidityPoolError::NotCreditLine)
        } else if amount <= 0 {
            Err(LiquidityPoolError::InvalidAmount)
        } else if self.reentrancy_locked {
            Err(LiquidityPoolError::ReentrancyDetected)
        } else if self.total_liquidity + recovered > i128::MAX {
            Err(LiquidityPoolError::Overflow)
        } else if self.token is None {
            Err(LiquidityPoolError::NotInitialized)
        } else {
            Ok(())
        }
    }

    /// A forfeited guarantee received on a default: up to the locked
    /// liquidity, the amount moves from locked back to usable liquidity. The
    /// caller moves `amount` tokens into the pool.
    pub fn receive_guarantee(&mut self, creditline: Address, amount: i128) -> (r: Result<
        (),
        LiquidityPoolError,
    >)
        requires
            old(self).wf(),
        ensures
            final(self).wf(),
            r == old(self).spec_receive_guarantee(creditline, amount),
            r is Err ==> *final(self) == *old(self),
            r is Ok ==> {
                let recovered = if amount < old(self).locked_liquidity {
                    amount
                } else {
                    old(self).locked_liquidity
                };
                &&& final(self).locked_liquidity == old(self).locked_liquidity - recovered
                &&& final(self).total_liquidity == old(self).total_liquidity + recovered
                &&& final(self).total_shares == old(self).total_shares
                &&& final(self).lp_shares@ == old(self).lp_shares@
                &&& final(self).merchant_funded@ == old(self).merchant_funded@
                &&& final(self).outflow_window_seq == old(self).outflow_window_seq
                &&& final(self).outflow_window_used == old(self).outflow_window_used
                &&& final(self).config_eq(*old(self))
            },
    {
        if self.paused {
            return Err(LiquidityPoolError::ContractPaused);
        }
        self.require_creditline(creditline)?;
        if amount <= 0 {
            return Err(LiquidityPoolError::InvalidAmount);
        }
        if self.reentrancy_locked {
            return Err(LiquidityPoolError::ReentrancyDetected);
        }
        let recovered = if amount < self.locked_liquidity {
            amount
        } else {
            self.locked_liquidity
        };
        let new_total = safe_math::add_i128(self.total_liquidity, recovered)?;
        let _token = self.get_token()?;
        self.locked_liquidity = self.locked_liquidity - recovered;
        self.total_liquidity = new_total;
        Ok(())
    }

    /// Every check `absorb_loss` performs, in order.
    pub open spec fn spec_absorb_loss(self, creditline: Address, principal_shortfall: i128) -> Result<
        (),
        LiquidityPoolError,
    > {
        if self.paused {
            Err(LiquidityPoolError::ContractPaused)
        } else if self.spec_require_creditline(creditline) is Err {
            Err(LiquidityPoolError::NotCreditLine)
        } else if principal_shortfall <= 0 {
            Err(LiquidityPoolError::InvalidAmount)
        } else if self.reentrancy_locked {
            Err(LiquidityPoolError::ReentrancyDetected)
        } else {
            Ok(())
        }
    }

    /// Writes off an unrecovered principal shortfall: locked and total
    /// liquidity both drop by the shortfall, each capped at its current
    /// value, so the share price reflects the loss.
    pub fn absorb_loss(&mut self, creditline: Address, principal_shortfall: i128) -> (r: Result<
        (),
        LiquidityPoolError,
    >)
        requires
            old(self).wf(),
        ensures
            final(self).wf(),
            r == old(self).spec_absorb_loss(creditline, principal_shortfall),
            r is Err ==> *final(self) == *old(self),
            r is Ok ==> {
                &&& final(self).locked_liquidity == old(self).locked_liquidity - (
                if principal_shortfall < old(self).locked_liquidity {
                    principal_shortfall
                } else {
                    old(self).locked_liquidity
                })
                &&& final(self).total_liquidity == old(self).total_liquidity - (
                if principal_shortfall < old(self).total_liquidity {
                    principal_shortfall
                } else {
                    old(self).total_liquidity
                })
                &&& final(self).total_shares == old(self).total_shares
                &&& final(self).lp_shares@ == old(self).lp_shares@
                &&& final(self).merchant_funded@ == old(self).merchant_funded@
                &&& final(self).outflow_window_seq == old(self).outflow_window_seq
                &&& final(self).outflow_window_used == old(self).outflow_window_used
                &&& final(self).config_eq(*old(self))
                &&& old(self).spec_absorbed_state(*final(self), principal_shortfall)
            },
    {
        if self.paused {
            return Err(LiquidityPoolError::ContractPaused);
        }
        self.require_creditline(creditline)?;
        if principal_shortfall <= 0 {
            return Err(LiquidityPoolError::InvalidAmount);
        }
        if self.reentrancy_locked {
            return Err(LiquidityPoolError::ReentrancyDetected);
        }
        let locked_reduction = if principal_shortfall < self.locked_liquidity {
            principal_shortfall
        } else {
            self.locked_liquidity
        };
        let total_reduction = if principal_shortfall < self.total_liquidity {
            principal_shortfall
        } else {
            self.total_liquidity
        };
        self.locked_liquidity = self.locked_liquidity - locked_reduction;
        self.total_liquidity = self.total_liquidity - total_reduction;
        Ok(())
    }

    /// Every check `distribute_interest` performs, in order.
    pub open spec fn spec_distribute_interest(self, creditline: Address, interest_amount: i128) -> Result<
        InterestSplit,
        LiquidityPoolError,
    > {
        if self.paused {
            Err(LiquidityPoolError::ContractPaused)
        } else if self.spec_require_creditline(creditline) is Err {
            Err(LiquidityPoolError::NotCreditLine)
        } else if self.reentrancy_locked {
            Err(LiquidityPoolError::ReentrancyDetected)
        } else if self.token is None {
            Err(LiquidityPoolError::NotInitialized)
        } else {
            self.spec_distribute(interest_amount)
        }
    }

    /// Interest paid in by the credit line (which moves `interest_amount`
    /// tokens into the pool first), split as `distribute_interest_internal`
    /// describes.
    pub fn distribute_interest(&mut self, creditline: Address, interest_amount: i128) -> (r: Result<
        InterestSplit,
        LiquidityPoolError,
    >)
        requires
            old(self).wf(),
        ensures
            final(self).wf(),
            r == old(self).spec_distribute_interest(creditline, interest_amount),
            r is Err ==> *final(self) == *old(self),
            r is Ok ==> final(self).total_liquidity == old(self).total_liquidity
                + r->Ok_0.retained_amount && final(self).locked_liquidity == old(self).locked_liquidity
                && final(self).total_shares == old(self).total_shares && final(self).lp_shares@
                == old(self).lp_shares@ && final(self).merchant_funded@ == old(
                self).merchant_funded@ && final(self).outflow_window_seq == old(
                self).outflow_window_seq && final(self).outflow_window_used == old(
                self).outflow_window_used && final(self).config_eq(*old(self)),
    {
        if self.paused {
            return Err(LiquidityPoolError::ContractPaused);
        }
        self.require_creditline(creditline)?;
        if self.reentrancy_locked {
            return Err(LiquidityPoolError::ReentrancyDetected);
        }
        let _token = self.get_token()?;
        self.distribute_interest_internal(interest_amount)
    }

    /// Same as `distribute_interest`: accrues interest into the pool, raising
    /// the share price for every provider.
    pub fn accumulate_interest(&mut self, creditline: Address, interest_amount: i128) -> (r: Result<
        InterestSplit,
        LiquidityPoolError,
    >)
        requires
            old(self).wf(),
        ensures
            final(self).wf(),
            r == old(self).spec_distribute_interest(creditline, interest_amount),
            r is Err ==> *final(self) == *old(self),
            r is Ok ==> final(self).total_liquidity == old(self).total_liquidity
                + r->Ok_0.retained_amount && final(self).locked_liquidity == old(self).locked_liquidity
                && final(self).total_shares == old(self).total_shares && final(self).lp_shares@
                == old(self).lp_shares@ && final(self).merchant_funded@ == old(
                self).merchant_funded@ && final(self).outflow_window_seq == old(
                self).outflow_window_seq && final(self).outflow_window_used == old(
                self).outflow_window_used && final(self).config_eq(*old(self)),
    {
        self.distribute_interest(creditline, interest_amount)
    }

    /// Calls within one ledger share the outflow window; a new ledger starts
    /// a fresh one. Let `fund_loan(creditline, m1, a1)` succeed at ledger
    /// `seq`, `prior` being what the window had already counted for `seq`
    /// (0 when it was on another ledger), and leave `available` liquidity. A
    /// further call for `a2` (within the available liquidity, with no
    /// exposure cap and an active vendor) is refused for the outflow cap
    /// exactly when `prior + a1 + a2` exceeds `cap_bps` of `available` at
    /// the same ledger, and exactly when `a2` alone does at any other ledger;
    /// otherwise it succeeds. Left out: the inputs where the cap's product
    /// or the window's sum leaves the `i128` range (an `Overflow` refusal).
    pub proof fn lemma_outflow_window_per_ledger(
        p0: LiquidityPoolContract,
        p1: LiquidityPoolContract,
        creditline: Address,
        m1: Address,
        a1: i128,
        seq: u32,
        m2: Address,
        a2: i128,
        other_seq: u32,
    )
        requires
            p0.wf(),
            p0.outflow_cap_bps > 0,
            p0.merchant_exposure_cap == 0,
            p0.spec_fund_loan(creditline, m1, a1, seq, true) is Ok,
            p0.spec_funded_state(p1, m1, a1, seq),
            0 < a2 <= p1.total_liquidity - p1.locked_liquidity,
            (p1.total_liquidity - p1.locked_liquidity) * p0.outflow_cap_bps <= i128::MAX,
            (if p0.outflow_window_seq == seq {
                p0.outflow_window_used as int
            } else {
                0
            }) + a1 + a2 <= i128::MAX,
            p1.spec_merchant_funded(m2) + a2 <= i128::MAX,
            other_seq != seq,
        ensures
            ({
                let available = p1.total_liquidity - p1.locked_liquidity;
                let cap = available * p0.outflow_cap_bps / (TOTAL_BPS as int);
                let prior = if p0.outflow_window_seq == seq {
                    p0.outflow_window_used as int
                } else {
                    0
                };
                &&& (p1.spec_fund_loan(creditline, m2, a2, seq, true) == Err::<
                    (),
                    LiquidityPoolError,
                >(LiquidityPoolError::OutflowCapExceeded)) <==> prior + a1 + a2 > cap
                &&& (p1.spec_fund_loan(creditline, m2, a2, other_seq, true) == Err::<
                    (),
                    LiquidityPoolError,
                >(LiquidityPoolError::OutflowCapExceeded)) <==> a2 > cap
                &&& prior + a1 + a2 <= cap ==> p1.spec_fund_loan(creditline, m2, a2, seq, true) is Ok
                &&& a2 <= cap ==> p1.spec_fund_loan(creditline, m2, a2, other_seq, true) is Ok
            }),
    {
        let available = p1.total_liquidity - p1.locked_liquidity;
        let bps = p0.outflow_cap_bps as i128;
        assert(available >= 0);
        assert(available * bps >= 0) by (nonlinear_arith)
            requires
                available >= 0,
                bps >= 0,
        ;
        let a0 = (p0.total_liquidity - p0.locked_liquidity) as i128;
        assert(p0.spec_outflow(a0, a1, seq) is Ok);
        assert(p1.outflow_window_seq == seq);
    }

    /// `new` is `self` after absorbing a loss of `principal_shortfall`:
    /// locked and total liquidity each drop by the shortfall, capped at
    /// their current value; the shares are unchanged.
    pub open spec fn spec_absorbed_state(self, new: Self, principal_shortfall: i128) -> bool {
        &&& new.locked_liquidity == self.locked_liquidity - (if principal_shortfall
            < self.locked_liquidity {
            principal_shortfall
        } else {
            self.locked_liquidity
        })
        &&& new.total_liquidity == self.total_liquidity - (if principal_shortfall
            < self.total_liquidity {
            principal_shortfall
        } else {
            self.total_liquidity
        })
        &&& new.total_shares == self.total_shares
        &&& new.lp_shares@ == self.lp_shares@
    }

    /// Absorbing a loss never raises the share price: after a successful
    /// `absorb_loss` on a well-formed pool whose price was defined, the
    /// price is defined and at most what it was.
    pub proof fn lemma_absorb_loss_never_raises_price(
        p0: LiquidityPoolContract,
        p1: LiquidityPoolContract,
        creditline: Address,
        principal_shortfall: i128,
    )
        requires
            p0.wf(),
            p0.spec_absorb_loss(creditline, principal_shortfall) is Ok,
            p0.spec_absorbed_state(p1, principal_shortfall),
            spec_share_price(p0.total_liquidity, p0.total_shares) is Ok,
        ensures
            spec_share_price(p1.total_liquidity, p1.total_shares) is Ok,
            spec_share_price(p1.total_liquidity, p1.total_shares)->Ok_0 <= spec_share_price(
                p0.total_liquidity,
                p0.total_shares,
            )->Ok_0,
    {
        assert(p0.total_shares >= 0) by {
            assert(p0.lp_shares@.dom().finite());
            lemma_shares_sum_nonneg(p0.lp_shares@);
        }
        lemma_share_price_monotone(p1.total_liquidity, p0.total_liquidity, p0.total_shares);
    }
}

} // verus!
