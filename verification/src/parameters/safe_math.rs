use vstd::prelude::*;
use super::errors::ParametersError;

verus! {

/// Checked `a + b`; `Overflow` when the sum leaves the `i128` range.
pub fn add_i128(a: i128, b: i128) -> (r: Result<i128, ParametersError>)
    ensures
        r == match a.checked_add(b) {
            Some(v) => Ok(v),
            None => Err(ParametersError::Overflow),
        },
        r is Ok <==> i128::MIN <= a + b <= i128::MAX,
        r is Ok ==> r->Ok_0 == a + b,
{
    match a.checked_add(b) {
        Some(v) => Ok(v),
        None => Err(ParametersError::Overflow),
    }
}

/// Checked `a - b`; `Underflow` when the difference leaves the `i128` range.
pub fn sub_i128(a: i128, b: i128) -> (r: Result<i128, ParametersError>)
    ensures
        r == match a.checked_sub(b) {
            Some(v) => Ok(v),
            None => Err(ParametersError::Underflow),
        },
        r is Ok <==> i128::MIN <= a - b <= i128::MAX,
        r is Ok ==> r->Ok_0 == a - b,
{
    match a.checked_sub(b) {
        Some(v) => Ok(v),
        None => Err(ParametersError::Underflow),
    }
}

/// Checked `a * b`; `Overflow` when the product leaves the `i128` range.
pub fn mul_i128(a: i128, b: i128) -> (r: Result<i128, ParametersError>)
    ensures
        r == match a.checked_mul(b) {
            Some(v) => Ok(v),
            None => Err(ParametersError::Overflow),
        },
        r is Ok <==> i128::MIN <= a * b <= i128::MAX,
        r is Ok ==> r->Ok_0 == a * b,
{
    match a.checked_mul(b) {
        Some(v) => Ok(v),
        None => Err(ParametersError::Overflow),
    }
}

/// Checked truncating division; `Overflow` on a zero divisor or on
/// `i128::MIN / -1`.
pub fn div_i128(a: i128, b: i128) -> (r: Result<i128, ParametersError>)
    ensures
        r == match a.checked_div(b) {
            Some(v) => Ok(v),
            None => Err(ParametersError::Overflow),
        },
        a >= 0 && b > 0 ==> r == Ok::<i128, ParametersError>((a / b) as i128),
{
    match a.checked_div(b) {
        Some(v) => Ok(v),
        None => Err(ParametersError::Overflow),
    }
}

} // verus!
