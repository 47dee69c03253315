use vstd::prelude::*;
use super::errors::CreditLineError;

verus! {

/// Checked `a + b`; `Overflow` when the sum leaves the `i128` range.
pub fn add_i128(a: i128, b: i128) -> (r: Result<i128, CreditLineError>)
    ensures
        r == match a.checked_add(b) {
            Some(v) => Ok(v),
            None => Err(CreditLineError::Overflow),
        },
        r is Ok <==> i128::MIN <= a + b <= i128::MAX,
        r is Ok ==> r->Ok_0 == a + b,
{
    match a.checked_add(b) {
        Some(v) => Ok(v),
        None => Err(CreditLineError::Overflow),
    }
}

/// Checked `a - b`; `Underflow` when the difference leaves the `i128` range.
pub fn sub_i128(a: i128, b: i128) -> (r: Result<i128, CreditLineError>)
    ensures
        r == match a.checked_sub(b) {
            Some(v) => Ok(v),
            None => Err(CreditLineError::Underflow),
        },
        r is Ok <==> i128::MIN <= a - b <= i128::MAX,
        r is Ok ==> r->Ok_0 == a - b,
{
    match a.checked_sub(b) {
        Some(v) => Ok(v),
        None => Err(CreditLineError::Underflow),
    }
}

/// Checked `a * b`; `Overflow` when the product leaves the `i128` range.
pub fn mul_i128(a: i128, b: i128) -> (r: Result<i128, CreditLineError>)
    ensures
        r == match a.checked_mul(b) {
            Some(v) => Ok(v),
            None => Err(CreditLineError::Overflow),
        },
        r is Ok <==> i128::MIN <= a * b <= i128::MAX,
        r is Ok ==> r->Ok_0 == a * b,
{
    match a.checked_mul(b) {
        Some(v) => Ok(v),
        None => Err(CreditLineError::Overflow),
    }
}

/// Checked truncating division; `Overflow` on a zero divisor or on
/// `i128::MIN / -1`.
pub fn div_i128(a: i128, b: i128) -> (r: Result<i128, CreditLineError>)
    ensures
        r == match a.checked_div(b) {
            Some(v) => Ok(v),
            None => Err(CreditLineError::Overflow),
        },
        a >= 0 && b > 0 ==> r == Ok::<i128, CreditLineError>((a / b) as i128),
{
    match a.checked_div(b) {
        Some(v) => Ok(v),
        None => Err(CreditLineError::Overflow),
    }
}

/// Checked `a + b` on `u64`.
pub fn add_u64(a: u64, b: u64) -> (r: Result<u64, CreditLineError>)
    ensures
        r is Ok <==> a + b <= u64::MAX,
        r is Ok ==> r->Ok_0 == a + b,
        r is Err ==> r->Err_0 == CreditLineError::Overflow,
{
    match a.checked_add(b) {
        Some(v) => Ok(v),
        None => Err(CreditLineError::Overflow),
    }
}

/// Checked `a - b` on `u64`.
pub fn sub_u64(a: u64, b: u64) -> (r: Result<u64, CreditLineError>)
    ensures
        r is Ok <==> b <= a,
        r is Ok ==> r->Ok_0 == a - b,
        r is Err ==> r->Err_0 == CreditLineError::Underflow,
{
    match a.checked_sub(b) {
        Some(v) => Ok(v),
        None => Err(CreditLineError::Underflow),
    }
}

/// Checked `a * b` on `u64`.
pub fn mul_u64(a: u64, b: u64) -> (r: Result<u64, CreditLineError>)
    ensures
        r is Ok <==> a * b <= u64::MAX,
        r is Ok ==> r->Ok_0 == a * b,
        r is Err ==> r->Err_0 == CreditLineError::Overflow,
{
    match a.checked_mul(b) {
        Some(v) => Ok(v),
        None => Err(CreditLineError::Overflow),
    }
}

/// Checked `a / b` on `u64`; `Overflow` on a zero divisor.
pub fn div_u64(a: u64, b: u64) -> (r: Result<u64, CreditLineError>)
    ensures
        r is Ok <==> b != 0,
        r is Ok ==> r->Ok_0 == a / b,
        r is Err ==> r->Err_0 == CreditLineError::Overflow,
{
    match a.checked_div(b) {
        Some(v) => Ok(v),
        None => Err(CreditLineError::Overflow),
    }
}

} // verus!
