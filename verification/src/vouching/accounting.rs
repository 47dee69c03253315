use vstd::prelude::*;
use crate::{spec_pair_key, Address};
use super::types::VouchRecord;

verus! {

/// Boost taken back when a vouch of `boost` ends while the learner's score
/// is `current` and its pre-vouch baseline is `baseline`: the boost, but
/// never more than the learner holds above the baseline.
pub open spec fn spec_clamped_removal(current: u32, baseline: u32, boost: u32) -> u32 {
    let headroom: u32 = if current > baseline {
        (current - baseline) as u32
    } else {
        0
    };
    if boost < headroom {
        boost
    } else {
        headroom
    }
}

/// Boost to take back when a vouch ends (see `spec_clamped_removal`). The
/// learner never drops below its baseline on this account, and when no
/// penalty ate into the boost the whole boost comes back off.
pub fn clamped_removal(current: u32, baseline: u32, boost: u32) -> (r: u32)
    ensures
        r == spec_clamped_removal(current, baseline, boost),
        r <= boost,
        r <= current,
        current - r >= (if current < baseline {
            current
        } else {
            baseline
        }),
        current >= baseline + boost ==> r == boost,
{
    let headroom = current.saturating_sub(baseline);
    if boost < headroom {
        boost
    } else {
        headroom
    }
}

/// Taking back two boosts in either order removes exactly both when no
/// penalty intervened: the accounting does not depend on which vouch ends
/// first.
pub proof fn lemma_removal_order_independent(baseline: u32, x: u32, y: u32)
    requires
        baseline + x + y <= u32::MAX,
    ensures
        spec_clamped_removal((baseline + x + y) as u32, baseline, x) == x,
        spec_clamped_removal((baseline + y) as u32, baseline, y) == y,
        spec_clamped_removal((baseline + x + y) as u32, baseline, y) == y,
        spec_clamped_removal((baseline + x) as u32, baseline, x) == x,
{
}

/// What the vouch of `mentor` for `learner` currently adds to the learner's
/// score: its boost while active, else nothing.
pub open spec fn spec_contribution(
    vouches: Map<u128, VouchRecord>,
    mentor: Address,
    learner: Address,
) -> int {
    let k = spec_pair_key(mentor, learner);
    if vouches.contains_key(k) && vouches[k].active {
        vouches[k].boost_amount as int
    } else {
        0
    }
}

/// Sum of what the vouches of `mentors` for `learner` currently add.
pub open spec fn spec_boost_sum(
    vouches: Map<u128, VouchRecord>,
    learner: Address,
    mentors: Seq<Address>,
) -> int
    decreases mentors.len(),
{
    if mentors.len() == 0 {
        0
    } else {
        spec_boost_sum(vouches, learner, mentors.drop_last()) + spec_contribution(
            vouches,
            mentors.last(),
            learner,
        )
    }
}

/// Whether `s` lists no address twice.
pub open spec fn spec_distinct(s: Seq<Address>) -> bool {
    forall|i: int, j: int| 0 <= i < j < s.len() ==> s[i] != s[j]
}

/// Appending a mentor adds its contribution.
pub proof fn lemma_boost_sum_push(
    vouches: Map<u128, VouchRecord>,
    learner: Address,
    mentors: Seq<Address>,
    mentor: Address,
)
    ensures
        spec_boost_sum(vouches, learner, mentors.push(mentor)) == spec_boost_sum(
            vouches,
            learner,
            mentors,
        ) + spec_contribution(vouches, mentor, learner),
{
    assert(mentors.push(mentor).drop_last() =~= mentors);
}

/// The sum is at least the contribution of any listed mentor.
pub proof fn lemma_boost_sum_covers(
    vouches: Map<u128, VouchRecord>,
    learner: Address,
    mentors: Seq<Address>,
    i: int,
)
    requires
        0 <= i < mentors.len(),
    ensures
        spec_boost_sum(vouches, learner, mentors) >= spec_contribution(
            vouches,
            mentors[i],
            learner,
        ),
        spec_boost_sum(vouches, learner, mentors) >= 0,
    decreases mentors.len(),
{
    lemma_boost_sum_nonneg(vouches, learner, mentors.drop_last());
    if i < mentors.len() - 1 {
        lemma_boost_sum_covers(vouches, learner, mentors.drop_last(), i);
    }
}

/// The sum is never negative.
pub proof fn lemma_boost_sum_nonneg(
    vouches: Map<u128, VouchRecord>,
    learner: Address,
    mentors: Seq<Address>,
)
    ensures
        spec_boost_sum(vouches, learner, mentors) >= 0,
    decreases mentors.len(),
{
    if mentors.len() > 0 {
        lemma_boost_sum_nonneg(vouches, learner, mentors.drop_last());
    }
}

/// When only the vouch of `changed` for `learner` differs between two
/// tables, the sum moves by the change of that one contribution (once, as a
/// mentor is listed at most once), or not at all if it is not listed.
pub proof fn lemma_boost_sum_update(
    before: Map<u128, VouchRecord>,
    after: Map<u128, VouchRecord>,
    learner: Address,
    mentors: Seq<Address>,
    changed: Address,
)
    requires
        spec_distinct(mentors),
        forall|m: Address|
            m != changed ==> #[trigger] spec_contribution(after, m, learner) == spec_contribution(
                before,
                m,
                learner,
            ),
    ensures
        spec_boost_sum(after, learner, mentors) == spec_boost_sum(before, learner, mentors) + (
        if mentors.contains(changed) {
            spec_contribution(after, changed, learner) - spec_contribution(before, changed, learner)
        } else {
            0
        }),
    decreases mentors.len(),
{
    if mentors.len() > 0 {
        let rest = mentors.drop_last();
        let last = mentors.last();
        assert(spec_distinct(rest));
        lemma_boost_sum_update(before, after, learner, rest, changed);
        if last == changed {
            assert(mentors.contains(changed)) by {
                assert(mentors[mentors.len() - 1] == changed);
            }
            assert(!rest.contains(changed)) by {
                if rest.contains(changed) {
                    let j = choose|j: int| 0 <= j < rest.len() && rest[j] == changed;
                    assert(mentors[j] == mentors[mentors.len() - 1]);
                }
            }
        } else {
            assert(rest.contains(changed) <==> mentors.contains(changed)) by {
                if mentors.contains(changed) {
                    let j = choose|j: int| 0 <= j < mentors.len() && mentors[j] == changed;
                    assert(rest[j] == changed);
                }
                if rest.contains(changed) {
                    let j = choose|j: int| 0 <= j < rest.len() && rest[j] == changed;
                    assert(mentors[j] == changed);
                }
            }
        }
    }
}

/// Tables that agree on every contribution for `learner` give the same sum.
pub proof fn lemma_boost_sum_same(
    before: Map<u128, VouchRecord>,
    after: Map<u128, VouchRecord>,
    learner: Address,
    mentors: Seq<Address>,
)
    requires
        forall|m: Address|
            #[trigger] spec_contribution(after, m, learner) == spec_contribution(before, m, learner),
    ensures
        spec_boost_sum(after, learner, mentors) == spec_boost_sum(before, learner, mentors),
    decreases mentors.len(),
{
    if mentors.len() > 0 {
        lemma_boost_sum_same(before, after, learner, mentors.drop_last());
    }
}

} // verus!
