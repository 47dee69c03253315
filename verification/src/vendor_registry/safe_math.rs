use vstd::prelude::*;
use super::errors::Error;

verus! {

/// Checked `a + b`; `Overflow` past `u64::MAX`.
pub fn add_u64(a: u64, b: u64) -> (r: Result<u64, Error>)
    ensures
        r is Ok <==> a + b <= u64::MAX,
        r is Ok ==> r->Ok_0 == a + b,
        r is Err ==> r->Err_0 == Error::Overflow,
{
    match a.checked_add(b) {
        Some(v) => Ok(v),
        None => Err(Error::Overflow),
    }
}

/// Checked `a - b`; `Underflow` below zero.
pub fn sub_u64(a: u64, b: u64) -> (r: Result<u64, Error>)
    ensures
        r is Ok <==> b <= a,
        r is Ok ==> r->Ok_0 == a - b,
        r is Err ==> r->Err_0 == Error::Underflow,
{
    match a.checked_sub(b) {
        Some(v) => Ok(v),
        None => Err(Error::Underflow),
    }
}

} // verus!
