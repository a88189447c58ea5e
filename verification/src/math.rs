//! Fixed-point arithmetic kernel. All cross-component quantities are Q64.64
//! unsigned 128-bit fixed-point values unless stated signed; these checked
//! primitives are the only arithmetic other components use for liquidity and
//! growth math.

use vstd::prelude::*;
use crate::errors::ErrorCode;

verus! {

/// Number of fractional bits of a Q64.64 value.
pub const Q64_RESOLUTION: u32 = 64;

/// `2^64`, the scale factor of a Q64.64 value.
pub const Q64: u128 = 0x1_0000_0000_0000_0000;

/// `2^128`, the modulus of the wrapping 128-bit growth accumulators.
pub open spec fn pow2_128() -> int {
    0x1_0000_0000_0000_0000_0000_0000_0000_0000int
}

/// `2^64`, the modulus of the wrapping 64-bit owed-amount accumulators.
pub open spec fn pow2_64() -> int {
    0x1_0000_0000_0000_0000int
}

/// Computes `(n0 * n1) >> 64` with a 128-bit intermediate product; fails with
/// `ArithmeticOverflow` if the product does not fit the intermediate width.
/// The shifted result always fits the 64-bit target width.
pub fn checked_mul_shift_right(n0: u128, n1: u128) -> (r: Result<u64, ErrorCode>)
    ensures
        n0 * n1 <= u128::MAX ==> r == Ok::<u64, ErrorCode>(((n0 * n1) / (Q64 as int)) as u64),
        n0 * n1 > u128::MAX ==> r == Err::<u64, ErrorCode>(ErrorCode::ArithmeticOverflow),
{
    match n0.checked_mul(n1) {
        Some(p) => {
            assert(p / Q64 < Q64 as u128) by (nonlinear_arith)
                requires p <= u128::MAX, Q64 == 0x1_0000_0000_0000_0000u128;
            Ok((p / Q64) as u64)
        }
        None => Err(ErrorCode::ArithmeticOverflow),
    }
}

/// Applies a signed liquidity delta to an unsigned liquidity amount; fails
/// with `LiquidityUnderflow` if the result would be negative and with
/// `LiquidityOverflow` if it would exceed the liquidity type's maximum.
pub fn add_liquidity_delta(liquidity: u128, delta: i128) -> (r: Result<u128, ErrorCode>)
    ensures
        0 <= liquidity + delta <= u128::MAX
            ==> r == Ok::<u128, ErrorCode>((liquidity + delta) as u128),
        liquidity + delta > u128::MAX ==> r == Err::<u128, ErrorCode>(ErrorCode::LiquidityOverflow),
        liquidity + delta < 0 ==> r == Err::<u128, ErrorCode>(ErrorCode::LiquidityUnderflow),
{
    if delta >= 0 {
        match liquidity.checked_add(delta as u128) {
            Some(v) => Ok(v),
            None => Err(ErrorCode::LiquidityOverflow),
        }
    } else {
        let magnitude: u128 = ((-(delta + 1)) as u128) + 1;
        assert(magnitude == -(delta as int));
        match liquidity.checked_sub(magnitude) {
            Some(v) => Ok(v),
            None => Err(ErrorCode::LiquidityUnderflow),
        }
    }
}

/// Converts an environment-supplied signed timestamp to the engine's unsigned
/// seconds; fails with `InvalidTimestamp` on a negative value.
pub fn to_timestamp_u64(t: i64) -> (r: Result<u64, ErrorCode>)
    ensures
        t >= 0 ==> r == Ok::<u64, ErrorCode>(t as u64),
        t < 0 ==> r == Err::<u64, ErrorCode>(ErrorCode::InvalidTimestamp),
{
    if t >= 0 {
        Ok(t as u64)
    } else {
        Err(ErrorCode::InvalidTimestamp)
    }
}

/// A wrapping 128-bit accumulator holds the sum of everything ever added to
/// it, reduced modulo `2^128`.
pub proof fn lemma_wrapping_add_u128_is_mod(a: u128, b: u128)
    ensures
        a.wrapping_add(b) == (a + b) % pow2_128(),
{
}

/// Wrapping subtraction on a 128-bit accumulator is subtraction modulo
/// `2^128`.
pub proof fn lemma_wrapping_sub_u128_is_mod(a: u128, b: u128)
    ensures
        a.wrapping_sub(b) == (a - b) % pow2_128(),
{
}

} // verus!
