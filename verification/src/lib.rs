//! Verified state machines for the StepFi buy-now-pay-later protocol.
//!
//! Each submodule models one on-chain contract: its storage is a plain Rust
//! struct, and every entry point is a function from that storage (plus the
//! values the entry point reads from the ledger or from other contracts) to
//! the new storage and the effects the caller must carry out. A function that
//! returns `Err` leaves the storage untouched, as a failed contract call does.
pub mod creditline;
pub mod liquidity_pool;
pub mod parameters;
pub mod reputation;
pub mod vendor_registry;
pub mod vouching;

use vstd::prelude::*;

verus! {

/// Identifier of an account or a contract on the ledger.
pub type Address = u64;

/// Hash of an uploaded contract code blob.
pub type WasmHash = [u8; 32];

/// Storage key for an ordered pair of 64-bit identifiers.
pub open spec fn spec_pair_key(a: u64, b: u64) -> u128 {
    (a as int * 0x1_0000_0000_0000_0000 + b as int) as u128
}

/// Distinct pairs get distinct keys.
pub proof fn lemma_pair_key_injective(a1: u64, b1: u64, a2: u64, b2: u64)
    ensures
        spec_pair_key(a1, b1) == spec_pair_key(a2, b2) ==> a1 == a2 && b1 == b2,
{
    if spec_pair_key(a1, b1) == spec_pair_key(a2, b2) {
        assert(a1 as int * 0x1_0000_0000_0000_0000 + b1 == a2 as int * 0x1_0000_0000_0000_0000 + b2);
        assert(a1 == a2 && b1 == b2) by (nonlinear_arith)
            requires
                a1 as int * 0x1_0000_0000_0000_0000 + b1 == a2 as int * 0x1_0000_0000_0000_0000 + b2,
                0 <= b1 < 0x1_0000_0000_0000_0000,
                0 <= b2 < 0x1_0000_0000_0000_0000,
        ;
    }
}

/// Storage key for an ordered pair of 64-bit identifiers.
pub fn pair_key(a: u64, b: u64) -> (k: u128)
    ensures
        k == spec_pair_key(a, b),
{
    (a as u128) * 0x1_0000_0000_0000_0000u128 + (b as u128)
}

/// Whether two code hashes are equal.
pub fn hashes_equal(a: &WasmHash, b: &WasmHash) -> (r: bool)
    ensures
        r == (a@ == b@),
{
    let mut i: usize = 0;
    while i < 32
        invariant
            0 <= i <= 32,
            a@.len() == 32,
            b@.len() == 32,
            forall|j: int| 0 <= j < i ==> a@[j] == b@[j],
        decreases 32 - i,
    {
        if a[i] != b[i] {
            return false;
        }
        i = i + 1;
    }
    proof {
        assert(a@ =~= b@);
    }
    true
}

} // verus!
