use vstd::prelude::*;
use vstd::set::fold::{is_fun_commutative, lemma_fold_empty, lemma_fold_insert};
use crate::Address;

verus! {

/// Step of the share sum: adds the holding of `k`.
pub open spec fn spec_add_holding(m: Map<Address, i128>) -> spec_fn(int, Address) -> int {
    |acc: int, k: Address| acc + m[k]
}

/// Sum of all holdings in a share table.
pub open spec fn spec_shares_sum(m: Map<Address, i128>) -> int {
    m.dom().fold(0int, spec_add_holding(m))
}

/// Adding holdings does not depend on the order.
proof fn lemma_add_holding_commutative(m: Map<Address, i128>)
    ensures
        is_fun_commutative(spec_add_holding(m)),
{
    assert forall|a1: Address, a2: Address, b: int| #[trigger]
        spec_add_holding(m)(spec_add_holding(m)(b, a2), a1) == spec_add_holding(m)(
            spec_add_holding(m)(b, a1),
            a2,
        ) by {}
}

/// Folding two steps that agree on every element gives the same result.
proof fn lemma_fold_agree(
    s: Set<Address>,
    f1: spec_fn(int, Address) -> int,
    f2: spec_fn(int, Address) -> int,
)
    requires
        s.finite(),
        is_fun_commutative(f1),
        is_fun_commutative(f2),
        forall|x: Address, b: int| s.contains(x) ==> #[trigger] f1(b, x) == f2(b, x),
    ensures
        s.fold(0int, f1) == s.fold(0int, f2),
    decreases s.len(),
{
    if s.is_empty() {
        assert(s =~= Set::<Address>::empty());
        lemma_fold_empty(0int, f1);
        lemma_fold_empty(0int, f2);
    } else {
        let a = s.choose();
        let r = s.remove(a);
        assert(r.insert(a) =~= s);
        lemma_fold_agree(r, f1, f2);
        lemma_fold_insert(r, 0int, f1, a);
        lemma_fold_insert(r, 0int, f2, a);
    }
}

/// Setting the holding of `k` to `v` moves the sum by the difference.
pub proof fn lemma_shares_sum_insert(m: Map<Address, i128>, k: Address, v: i128)
    requires
        m.dom().finite(),
    ensures
        spec_shares_sum(m.insert(k, v)) == spec_shares_sum(m) - (if m.contains_key(k) {
            m[k] as int
        } else {
            0
        }) + v,
{
    let m2 = m.insert(k, v);
    let f1 = spec_add_holding(m);
    let f2 = spec_add_holding(m2);
    lemma_add_holding_commutative(m);
    lemma_add_holding_commutative(m2);
    let s = m.dom().remove(k);
    assert forall|x: Address, b: int| s.contains(x) implies #[trigger] f1(b, x) == f2(b, x) by {}
    lemma_fold_agree(s, f1, f2);
    lemma_fold_insert(s, 0int, f2, k);
    assert(m2.dom() =~= s.insert(k));
    if m.contains_key(k) {
        assert(m.dom() =~= s.insert(k));
        lemma_fold_insert(s, 0int, f1, k);
    } else {
        assert(m.dom() =~= s);
    }
}

/// The empty table sums to zero.
pub proof fn lemma_shares_sum_empty()
    ensures
        spec_shares_sum(Map::<Address, i128>::empty()) == 0,
{
    let m = Map::<Address, i128>::empty();
    assert(m.dom() =~= Set::<Address>::empty());
    lemma_fold_empty(0int, spec_add_holding(m));
}

/// Folding non-negative holdings over any part of the table gives a
/// non-negative sum.
proof fn lemma_fold_nonneg(m: Map<Address, i128>, s: Set<Address>)
    requires
        s.finite(),
        forall|x: Address| s.contains(x) ==> #[trigger] m[x] >= 0,
    ensures
        s.fold(0int, spec_add_holding(m)) >= 0,
    decreases s.len(),
{
    lemma_add_holding_commutative(m);
    if s.is_empty() {
        assert(s =~= Set::<Address>::empty());
        lemma_fold_empty(0int, spec_add_holding(m));
    } else {
        let a = s.choose();
        let r = s.remove(a);
        assert(r.insert(a) =~= s);
        lemma_fold_nonneg(m, r);
        lemma_fold_insert(r, 0int, spec_add_holding(m), a);
    }
}

/// A table of non-negative holdings has a non-negative sum.
pub proof fn lemma_shares_sum_nonneg(m: Map<Address, i128>)
    requires
        m.dom().finite(),
        forall|x: Address| #[trigger] m.contains_key(x) ==> m[x] >= 0,
    ensures
        spec_shares_sum(m) >= 0,
{
    lemma_fold_nonneg(m, m.dom());
}

} // verus!
