//! Saturating arithmetic on `u128` and `u64`, stated over mathematical
//! integers.

use vstd::prelude::*;

verus! {

/// `a + b`, or `u128::MAX` when the sum does not fit.
pub open spec fn sat_add(a: u128, b: u128) -> u128 {
    if a + b > u128::MAX { u128::MAX } else { (a + b) as u128 }
}

/// `a - b`, or `0` when `b > a`.
pub open spec fn sat_sub(a: u128, b: u128) -> u128 {
    if a < b { 0 } else { (a - b) as u128 }
}

/// `a * b`, or `u128::MAX` when the product does not fit.
pub open spec fn sat_mul(a: u128, b: u128) -> u128 {
    if a * b > u128::MAX { u128::MAX } else { (a * b) as u128 }
}

/// `a + b` on `u64`, or `u64::MAX` when the sum does not fit.
pub open spec fn sat_add_u64(a: u64, b: u64) -> u64 {
    if a + b > u64::MAX { u64::MAX } else { (a + b) as u64 }
}

/// `a * b` on `u64`, or `u64::MAX` when the product does not fit.
pub open spec fn sat_mul_u64(a: u64, b: u64) -> u64 {
    if a * b > u64::MAX { u64::MAX } else { (a * b) as u64 }
}

/// Saturating multiplication of two `u128`.
pub fn saturating_mul(a: u128, b: u128) -> (r: u128)
    ensures
        r == sat_mul(a, b),
{
    match a.checked_mul(b) {
        Some(p) => p,
        None => u128::MAX,
    }
}

/// Saturating multiplication of two `u64`.
pub fn saturating_mul_u64(a: u64, b: u64) -> (r: u64)
    ensures
        r == sat_mul_u64(a, b),
{
    match a.checked_mul(b) {
        Some(p) => p,
        None => u64::MAX,
    }
}

/// The smaller of two `u128`.
pub fn min_u128(a: u128, b: u128) -> (r: u128)
    ensures
        r == (if a < b { a } else { b }),
{
    if a < b { a } else { b }
}

} // verus!
