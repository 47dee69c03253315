use vstd::prelude::*;
use crate::Address;
use super::shares::{lemma_shares_sum_insert, lemma_shares_sum_nonneg};
use super::storage::LiquidityPoolContract;
use super::types::DEAD_SHARES_AMOUNT;

verus! {

broadcast use vstd::std_specs::hash::group_hash_axioms;

impl LiquidityPoolContract {
    /// Replays a stored provider holding: the provider's shares join the
    /// table and the shares outstanding (with the dead shares, for the first
    /// holding of an empty pool). Returns false, changing nothing, for a
    /// provider already present, a negative holding, or a total that would
    /// leave the `i128` range.
    pub fn restore_lp_shares(&mut self, provider: Address, shares: i128) -> (accepted: bool)
        requires
            old(self).wf(),
        ensures
            final(self).wf(),
            accepted == (!old(self).lp_shares@.contains_key(provider) && shares >= 0
                && old(self).total_shares + shares + (if old(self).total_shares == 0 {
                DEAD_SHARES_AMOUNT
            } else {
                0
            }) <= i128::MAX),
            accepted ==> final(self).lp_shares@ == old(self).lp_shares@.insert(provider, shares)
                && final(self).total_shares == old(self).total_shares + shares + (if old(
                self).total_shares == 0 {
                DEAD_SHARES_AMOUNT
            } else {
                0
            }),
            !accepted ==> *final(self) == *old(self),
            final(self).config_eq(*old(self)),
            final(self).total_liquidity == old(self).total_liquidity,
            final(self).locked_liquidity == old(self).locked_liquidity,
            final(self).merchant_funded@ == old(self).merchant_funded@,
            final(self).outflow_window_seq == old(self).outflow_window_seq,
            final(self).outflow_window_used == old(self).outflow_window_used,
    {
        if self.lp_shares.contains_key(&provider) || shares < 0 {
            return false;
        }
        let base = if self.total_shares == 0 {
            DEAD_SHARES_AMOUNT
        } else {
            self.total_shares
        };
        let total = match base.checked_add(shares) {
            Some(t) => t,
            None => {
                return false;
            },
        };
        proof {
            assert(self.lp_shares@.dom().finite());
            lemma_shares_sum_insert(self.lp_shares@, provider, shares);
            lemma_shares_sum_nonneg(self.lp_shares@);
        }
        self.lp_shares.insert(provider, shares);
        self.total_shares = total;
        true
    }

    /// Sets the shares outstanding to the stored `total_shares`, which must
    /// agree with the replayed holdings: equal to the current total, or the
    /// dead shares alone for a pool whose providers all left. Returns false,
    /// changing nothing, otherwise.
    pub fn restore_share_total(&mut self, total_shares: i128) -> (accepted: bool)
        requires
            old(self).wf(),
        ensures
            final(self).wf(),
            accepted == (total_shares == old(self).total_shares || (old(self).total_shares == 0
                && total_shares == DEAD_SHARES_AMOUNT)),
            accepted ==> final(self).total_shares == total_shares,
            !accepted ==> final(self).total_shares == old(self).total_shares,
            final(self).lp_shares@ == old(self).lp_shares@,
            final(self).config_eq(*old(self)),
            final(self).total_liquidity == old(self).total_liquidity,
            final(self).locked_liquidity == old(self).locked_liquidity,
            final(self).merchant_funded@ == old(self).merchant_funded@,
            final(self).outflow_window_seq == old(self).outflow_window_seq,
            final(self).outflow_window_used == old(self).outflow_window_used,
    {
        if total_shares == self.total_shares {
            return true;
        }
        if self.total_shares == 0 && total_shares == DEAD_SHARES_AMOUNT {
            self.total_shares = total_shares;
            return true;
        }
        false
    }

    /// Replays a stored merchant's cumulative funding. Returns false,
    /// changing nothing, for a merchant already present or a negative amount.
    pub fn restore_merchant_funded(&mut self, merchant: Address, amount: i128) -> (accepted: bool)
        requires
            old(self).wf(),
        ensures
            final(self).wf(),
            accepted == (!old(self).merchant_funded@.contains_key(merchant) && amount >= 0),
            accepted ==> final(self).merchant_funded@ == old(self).merchant_funded@.insert(
                merchant,
                amount,
            ),
            !accepted ==> *final(self) == *old(self),
            final(self).config_eq(*old(self)),
            final(self).total_shares == old(self).total_shares,
            final(self).lp_shares@ == old(self).lp_shares@,
            final(self).total_liquidity == old(self).total_liquidity,
            final(self).locked_liquidity == old(self).locked_liquidity,
            final(self).outflow_window_seq == old(self).outflow_window_seq,
            final(self).outflow_window_used == old(self).outflow_window_used,
    {
        if self.merchant_funded.contains_key(&merchant) || amount < 0 {
            return false;
        }
        self.merchant_funded.insert(merchant, amount);
        true
    }

    /// Replays the stored liquidity, caps and outflow window. Returns false,
    /// changing nothing, unless `0 <= locked <= total`, the outflow cap is at
    /// most 10 000 basis points, the exposure cap and the window's use are
    /// not negative.
    pub fn restore_accounts(
        &mut self,
        total_liquidity: i128,
        locked_liquidity: i128,
        outflow_cap_bps: u32,
        merchant_exposure_cap: i128,
        outflow_window_seq: u32,
        outflow_window_used: i128,
    ) -> (accepted: bool)
        requires
            old(self).wf(),
        ensures
            final(self).wf(),
            accepted == (0 <= locked_liquidity <= total_liquidity && outflow_cap_bps <= 10_000
                && merchant_exposure_cap >= 0 && outflow_window_used >= 0),
            accepted ==> {
                &&& final(self).total_liquidity == total_liquidity
                &&& final(self).locked_liquidity == locked_liquidity
                &&& final(self).outflow_cap_bps == outflow_cap_bps
                &&& final(self).merchant_exposure_cap == merchant_exposure_cap
                &&& final(self).outflow_window_seq == outflow_window_seq
                &&& final(self).outflow_window_used == outflow_window_used
            },
            !accepted ==> *final(self) == *old(self),
            final(self).total_shares == old(self).total_shares,
            final(self).lp_shares@ == old(self).lp_shares@,
            final(self).merchant_funded@ == old(self).merchant_funded@,
    {
        if locked_liquidity < 0 || locked_liquidity > total_liquidity || outflow_cap_bps > 10_000
            || merchant_exposure_cap < 0 || outflow_window_used < 0 {
            return false;
        }
        self.total_liquidity = total_liquidity;
        self.locked_liquidity = locked_liquidity;
        self.outflow_cap_bps = outflow_cap_bps;
        self.merchant_exposure_cap = merchant_exposure_cap;
        self.outflow_window_seq = outflow_window_seq;
        self.outflow_window_used = outflow_window_used;
        true
    }
}

} // verus!
