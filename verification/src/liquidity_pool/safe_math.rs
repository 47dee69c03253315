use vstd::prelude::*;
use super::errors::LiquidityPoolError;

verus! {

/// Checked `a + b`; `Overflow` when the sum leaves the `i128` range.
pub fn add_i128(a: i128, b: i128) -> (r: Result<i128, LiquidityPoolError>)
    ensures
        r == match a.checked_add(b) {
            Some(v) => Ok(v),
            None => Err(LiquidityPoolError::Overflow),
        },
        r is Ok <==> i128::MIN <= a + b <= i128::MAX,
        r is Ok ==> r->Ok_0 == a + b,
{
    match a.checked_add(b) {
        Some(v) => Ok(v),
        None => Err(LiquidityPoolError::Overflow),
    }
}

/// Checked `a - b`; `Underflow` when the difference leaves the `i128` range.
pub fn sub_i128(a: i128, b: i128) -> (r: Result<i128, LiquidityPoolError>)
    ensures
        r == match a.checked_sub(b) {
            Some(v) => Ok(v),
            None => Err(LiquidityPoolError::Underflow),
        },
        r is Ok <==> i128::MIN <= a - b <= i128::MAX,
        r is Ok ==> r->Ok_0 == a - b,
{
    match a.checked_sub(b) {
        Some(v) => Ok(v),
        None => Err(LiquidityPoolError::Underflow),
    }
}

/// Checked `a * b`; `Overflow` when the product leaves the `i128` range.
pub fn mul_i128(a: i128, b: i128) -> (r: Result<i128, LiquidityPoolError>)
    ensures
        r == match a.checked_mul(b) {
            Some(v) => Ok(v),
            None => Err(LiquidityPoolError::Overflow),
        },
        r is Ok <==> i128::MIN <= a * b <= i128::MAX,
        r is Ok ==> r->Ok_0 == a * b,
{
    match a.checked_mul(b) {
        Some(v) => Ok(v),
        None => Err(LiquidityPoolError::Overflow),
    }
}

/// Checked truncating division; `Overflow` on a zero divisor or on
/// `i128::MIN / -1`.
pub fn div_i128(a: i128, b: i128) -> (r: Result<i128, LiquidityPoolError>)
    ensures
        r == match a.checked_div(b) {
            Some(v) => Ok(v),
            None => Err(LiquidityPoolError::Overflow),
        },
        a >= 0 && b > 0 ==> r == Ok::<i128, LiquidityPoolError>((a / b) as i128),
{
    match a.checked_div(b) {
        Some(v) => Ok(v),
        None => Err(LiquidityPoolError::Overflow),
    }
}

} // verus!
