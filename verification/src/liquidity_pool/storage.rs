use vstd::prelude::*;
use std::collections::HashMap;
use crate::Address;
use super::errors::LiquidityPoolError;
use super::shares::{lemma_shares_sum_empty, spec_shares_sum};
use super::types::{
    PendingUpgrade, DEAD_SHARES_AMOUNT, DEFAULT_MERCHANT_EXPOSURE_CAP, DEFAULT_OUTFLOW_CAP_BPS,
};

verus! {

broadcast use vstd::std_specs::hash::group_hash_axioms;

/// Storage of the liquidity pool.
pub struct LiquidityPoolContract {
    pub admin: Option<Address>,
    pub token: Option<Address>,
    pub treasury: Option<Address>,
    pub merchant_fund: Option<Address>,
    pub creditline: Option<Address>,
    pub vendor_registry: Option<Address>,
    pub parameters_contract: Option<Address>,
    /// Shares outstanding, the unclaimable dead shares included.
    pub total_shares: i128,
    /// Tokens the pool accounts for, lent-out ones included.
    pub total_liquidity: i128,
    /// Tokens currently lent out.
    pub locked_liquidity: i128,
    /// Shares per provider.
    pub lp_shares: HashMap<Address, i128>,
    /// Cumulative amount funded to each merchant.
    pub merchant_funded: HashMap<Address, i128>,
    pub reentrancy_locked: bool,
    pub paused: bool,
    pub version: u32,
    pub pending_upgrade: Option<PendingUpgrade>,
    /// Per-ledger outflow cap in basis points of available liquidity (0 = off).
    pub outflow_cap_bps: u32,
    /// Cumulative per-merchant funding ceiling (0 = off).
    pub merchant_exposure_cap: i128,
    /// Ledger sequence of the current outflow window.
    pub outflow_window_seq: u32,
    /// Amount funded within the current outflow window.
    pub outflow_window_used: i128,
}

impl LiquidityPoolContract {
    /// Well-formedness: liquidity is non-negative, the lent-out part never
    /// exceeds it, the caps are within their ranges, and the shares
    /// outstanding are exactly the providers' holdings plus, once anything
    /// was deposited, the dead shares.
    pub open spec fn wf(self) -> bool {
        &&& 0 <= self.locked_liquidity <= self.total_liquidity
        &&& self.outflow_cap_bps <= 10_000
        &&& self.merchant_exposure_cap >= 0
        &&& self.outflow_window_used >= 0
        &&& forall|m: Address|
            #[trigger] self.merchant_funded@.contains_key(m) ==> self.merchant_funded@[m] >= 0
        &&& forall|p: Address| #[trigger] self.lp_shares@.contains_key(p) ==> self.lp_shares@[p] >= 0
        &&& spec_shares_sum(self.lp_shares@) == if self.total_shares == 0 {
            0
        } else {
            self.total_shares - DEAD_SHARES_AMOUNT
        }
    }

    /// Shares held by `p` (0 when none).
    pub open spec fn spec_lp_shares(self, p: Address) -> i128 {
        if self.lp_shares@.contains_key(p) { self.lp_shares@[p] } else { 0 }
    }

    /// Cumulative amount funded to `m` (0 when none).
    pub open spec fn spec_merchant_funded(self, m: Address) -> i128 {
        if self.merchant_funded@.contains_key(m) { self.merchant_funded@[m] } else { 0 }
    }

    /// Everything but the pool's accounting agrees.
    pub open spec fn config_eq(self, o: Self) -> bool {
        &&& self.admin == o.admin
        &&& self.token == o.token
        &&& self.treasury == o.treasury
        &&& self.merchant_fund == o.merchant_fund
        &&& self.creditline == o.creditline
        &&& self.vendor_registry == o.vendor_registry
        &&& self.parameters_contract == o.parameters_contract
        &&& self.reentrancy_locked == o.reentrancy_locked
        &&& self.paused == o.paused
        &&& self.version == o.version
        &&& self.pending_upgrade == o.pending_upgrade
        &&& self.outflow_cap_bps == o.outflow_cap_bps
        &&& self.merchant_exposure_cap == o.merchant_exposure_cap
    }

    /// The pool's accounting agrees.
    pub open spec fn accounts_eq(self, o: Self) -> bool {
        &&& self.total_shares == o.total_shares
        &&& self.total_liquidity == o.total_liquidity
        &&& self.locked_liquidity == o.locked_liquidity
        &&& self.lp_shares@ == o.lp_shares@
        &&& self.merchant_funded@ == o.merchant_funded@
        &&& self.outflow_window_seq == o.outflow_window_seq
        &&& self.outflow_window_used == o.outflow_window_used
    }

    /// The storage of a freshly deployed, uninitialized pool.
    pub fn new() -> (c: Self)
        ensures
            c.wf(),
            c.admin is None,
            c.token is None,
            c.treasury is None,
            c.merchant_fund is None,
            c.creditline is None,
            c.vendor_registry is None,
            c.parameters_contract is None,
            c.total_shares == 0,
            c.total_liquidity == 0,
            c.locked_liquidity == 0,
            c.lp_shares@ == Map::<Address, i128>::empty(),
            c.merchant_funded@ == Map::<Address, i128>::empty(),
            !c.reentrancy_locked,
            !c.paused,
            c.version == 1,
            c.pending_upgrade is None,
            c.outflow_cap_bps == DEFAULT_OUTFLOW_CAP_BPS,
            c.merchant_exposure_cap == DEFAULT_MERCHANT_EXPOSURE_CAP,
            c.outflow_window_seq == 0,
            c.outflow_window_used == 0,
    {
        proof {
            lemma_shares_sum_empty();
        }
        LiquidityPoolContract {
            admin: None,
            token: None,
            treasury: None,
            merchant_fund: None,
            creditline: None,
            vendor_registry: None,
            parameters_contract: None,
            total_shares: 0,
            total_liquidity: 0,
            locked_liquidity: 0,
            lp_shares: HashMap::new(),
            merchant_funded: HashMap::new(),
            reentrancy_locked: false,
            paused: false,
            version: 1,
            pending_upgrade: None,
            outflow_cap_bps: DEFAULT_OUTFLOW_CAP_BPS,
            merchant_exposure_cap: DEFAULT_MERCHANT_EXPOSURE_CAP,
            outflow_window_seq: 0,
            outflow_window_used: 0,
        }
    }

    /// The stored admin; `NotInitialized` before `initialize`.
    pub fn get_admin(&self) -> (r: Result<Address, LiquidityPoolError>)
        ensures
            r == match self.admin {
                Some(a) => Ok(a),
                None => Err(LiquidityPoolError::NotInitialized),
            },
    {
        match self.admin {
            Some(a) => Ok(a),
            None => Err(LiquidityPoolError::NotInitialized),
        }
    }

    /// The pool token; `NotInitialized` before `initialize`.
    pub fn get_token(&self) -> (r: Result<Address, LiquidityPoolError>)
        ensures
            r == match self.token {
                Some(a) => Ok(a),
                None => Err(LiquidityPoolError::NotInitialized),
            },
    {
        match self.token {
            Some(a) => Ok(a),
            None => Err(LiquidityPoolError::NotInitialized),
        }
    }

    /// Shares held by `provider`.
    pub fn get_lp_shares(&self, provider: Address) -> (r: i128)
        ensures
            r == self.spec_lp_shares(provider),
    {
        match self.lp_shares.get(&provider) {
            Some(s) => *s,
            None => 0,
        }
    }

    /// Cumulative amount funded to `merchant`.
    pub fn get_merchant_funded(&self, merchant: Address) -> (r: i128)
        ensures
            r == self.spec_merchant_funded(merchant),
    {
        match self.merchant_funded.get(&merchant) {
            Some(s) => *s,
            None => 0,
        }
    }

    /// The per-ledger outflow cap in basis points (0 = disabled).
    pub fn get_outflow_cap_bps(&self) -> (r: u32)
        ensures
            r == self.outflow_cap_bps,
    {
        self.outflow_cap_bps
    }

    /// The per-merchant exposure cap (0 = disabled).
    pub fn get_merchant_exposure_cap(&self) -> (r: i128)
        ensures
            r == self.merchant_exposure_cap,
    {
        self.merchant_exposure_cap
    }

    /// The vendor registry used to vet fund recipients, if any.
    pub fn get_vendor_registry(&self) -> (r: Option<Address>)
        ensures
            r == self.vendor_registry,
    {
        self.vendor_registry
    }

    /// Contract version (1 until the first upgrade).
    pub fn get_version(&self) -> (r: u32)
        ensures
            r == self.version,
    {
        self.version
    }

    /// Whether the emergency stop is engaged.
    pub fn is_paused(&self) -> (r: bool)
        ensures
            r == self.paused,
    {
        self.paused
    }
}

} // verus!
