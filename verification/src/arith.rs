//! Checked fixed-width arithmetic.
//!
//! Every balance computation in the core goes through these functions; they
//! signal overflow and underflow explicitly instead of wrapping.

use vstd::prelude::*;

use crate::errors::PoolError;

verus! {

/// Adds two 64-bit amounts, failing with `Overflow` exactly when the sum
/// does not fit in 64 bits.
pub fn checked_add(a: u64, b: u64) -> (r: Result<u64, PoolError>)
    ensures
        a + b <= u64::MAX ==> r == Ok::<u64, PoolError>((a + b) as u64),
        a + b > u64::MAX ==> r == Err::<u64, PoolError>(PoolError::Overflow),
{
    match a.checked_add(b) {
        Some(s) => Ok(s),
        None => Err(PoolError::Overflow),
    }
}

/// Subtracts `b` from `a`, failing with `Underflow` exactly when `b > a`.
pub fn checked_sub(a: u64, b: u64) -> (r: Result<u64, PoolError>)
    ensures
        b <= a ==> r == Ok::<u64, PoolError>((a - b) as u64),
        b > a ==> r == Err::<u64, PoolError>(PoolError::Underflow),
{
    match a.checked_sub(b) {
        Some(d) => Ok(d),
        None => Err(PoolError::Underflow),
    }
}

/// Computes `principal * rate * time / divisor` with the product taken in a
/// double-width intermediate, flooring the quotient; fails with `Overflow`
/// exactly when the final quotient does not fit in 64 bits.
pub fn widened_mul_div(principal: u64, rate: u64, time: u64, divisor: u64) -> (r: Result<
    u64,
    PoolError,
>)
    requires
        divisor > 0,
    ensures
        principal * rate * time / (divisor as int) <= u64::MAX ==> r == Ok::<u64, PoolError>(
            (principal * rate * time / (divisor as int)) as u64,
        ),
        principal * rate * time / (divisor as int) > u64::MAX ==> r == Err::<u64, PoolError>(
            PoolError::Overflow,
        ),
{
    proof {
        assert(principal * rate <= u128::MAX) by (nonlinear_arith)
            requires
                principal <= u64::MAX,
                rate <= u64::MAX,
        ;
    }
    let wide: u128 = (principal as u128) * (rate as u128);
    match wide.checked_mul(time as u128) {
        Some(product) => {
            let quotient: u128 = product / (divisor as u128);
            proof {
                assert(product == principal * rate * time) by (nonlinear_arith)
                    requires
                        wide == principal * rate,
                        product == wide * time,
                ;
                vstd::arithmetic::div_mod::lemma_div_is_ordered(
                    0,
                    product as int,
                    divisor as int,
                );
            }
            if quotient > u64::MAX as u128 {
                Err(PoolError::Overflow)
            } else {
                Ok(quotient as u64)
            }
        },
        None => {
            proof {
                lemma_wide_product_quotient_large(
                    principal as int,
                    rate as int,
                    time as int,
                    divisor as int,
                );
            }
            Err(PoolError::Overflow)
        },
    }
}

/// When the three-factor product of 64-bit values exceeds the 128-bit range,
/// its quotient by any 64-bit divisor still exceeds the 64-bit range, so
/// refusing on intermediate overflow loses no representable result.
proof fn lemma_wide_product_quotient_large(p: int, r: int, t: int, d: int)
    requires
        0 <= p <= u64::MAX,
        0 <= r <= u64::MAX,
        0 <= t <= u64::MAX,
        0 < d <= u64::MAX,
        p * r * t > u128::MAX,
    ensures
        p * r * t / d > u64::MAX,
{
    let x = p * r * t;
    vstd::arithmetic::div_mod::lemma_div_is_ordered_by_denominator(x, d, u64::MAX as int);
    assert(x / (u64::MAX as int) > u64::MAX) by (nonlinear_arith)
        requires
            x > u128::MAX,
    ;
    assert(x / d >= x / (u64::MAX as int));
}

} // verus!
