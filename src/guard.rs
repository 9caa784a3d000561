//! Checked arithmetic used by the quote engines: products are taken in 128
//! bits, divisions check their divisor and round toward zero, and narrowing
//! back to 64 bits checks the range.
use vstd::prelude::*;

use crate::error::AmmError;

verus! {

/// The exact product of two 64-bit quantities, held in 128 bits.
pub fn mul_wide(a: u64, b: u64) -> (r: u128)
    ensures
        r == a * b,
{
    proof {
        assert(a * b <= u64::MAX * u64::MAX) by (nonlinear_arith)
            requires
                a <= u64::MAX,
                b <= u64::MAX,
        ;
    }
    (a as u128) * (b as u128)
}

/// Floor division; a zero divisor is refused.
pub fn div_floor(n: u128, d: u128) -> (r: Result<u128, AmmError>)
    ensures
        d == 0 ==> r == Err::<u128, AmmError>(AmmError::DivisionByZero),
        d != 0 ==> r == Ok::<u128, AmmError>(n / d),
{
    match n.checked_div(d) {
        Some(q) => Ok(q),
        None => Err(AmmError::DivisionByZero),
    }
}

/// Narrows a 128-bit quantity to 64 bits; a value out of range is refused.
pub fn narrow(v: u128) -> (r: Result<u64, AmmError>)
    ensures
        v > u64::MAX ==> r == Err::<u64, AmmError>(AmmError::Overflow),
        v <= u64::MAX ==> r == Ok::<u64, AmmError>(v as u64),
{
    if v > u64::MAX as u128 {
        Err(AmmError::Overflow)
    } else {
        Ok(v as u64)
    }
}

} // verus!
