use vstd::prelude::*;
use crate::Address;

verus! {

/// Boost a vouch adds when the deployment does not choose another.
pub const DEFAULT_VOUCH_BOOST: u32 = 10;

/// How long a vouch stays effective: 30 days, in seconds.
pub const VOUCH_DURATION: u64 = 2_592_000;

/// A mentor's vouch for a learner.
#[derive(Clone, Copy, Debug, PartialEq, Eq, Structural)]
pub struct VouchRecord {
    pub mentor: Address,
    pub learner: Address,
    /// Ledger time of the vouch.
    pub ts: u64,
    /// Boost this vouch added to the learner's score.
    pub boost_amount: u32,
    pub active: bool,
}

/// The moment a vouch made at `ts` expires: `ts + VOUCH_DURATION`,
/// saturating at `u64::MAX`.
pub open spec fn spec_expiry(ts: u64) -> u64 {
    if ts + VOUCH_DURATION <= u64::MAX {
        (ts + VOUCH_DURATION) as u64
    } else {
        u64::MAX
    }
}

/// Whether a vouch made at `ts` has expired at time `now` (strictly after
/// its expiry moment).
pub open spec fn spec_is_expired(ts: u64, now: u64) -> bool {
    spec_expiry(ts) < now
}

/// Whether a vouch made at `ts` has expired at time `now`.
pub fn is_expired(ts: u64, now: u64) -> (r: bool)
    ensures
        r == spec_is_expired(ts, now),
{
    let expiry = match ts.checked_add(VOUCH_DURATION) {
        Some(e) => e,
        None => u64::MAX,
    };
    expiry < now
}

} // verus!
