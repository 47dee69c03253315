use vstd::prelude::*;
use super::errors::VouchingError;

verus! {

/// Checked `a + b`; `Overflow` past `u32::MAX`.
pub fn add_u32(a: u32, b: u32) -> (r: Result<u32, VouchingError>)
    ensures
        r is Ok <==> a + b <= u32::MAX,
        r is Ok ==> r->Ok_0 == a + b,
        r is Err ==> r->Err_0 == VouchingError::Overflow,
{
    match a.checked_add(b) {
        Some(v) => Ok(v),
        None => Err(VouchingError::Overflow),
    }
}

/// Checked `a - b`; `Underflow` below zero.
pub fn sub_u32(a: u32, b: u32) -> (r: Result<u32, VouchingError>)
    ensures
        r is Ok <==> b <= a,
        r is Ok ==> r->Ok_0 == a - b,
        r is Err ==> r->Err_0 == VouchingError::Underflow,
{
    match a.checked_sub(b) {
        Some(v) => Ok(v),
        None => Err(VouchingError::Underflow),
    }
}

} // verus!
