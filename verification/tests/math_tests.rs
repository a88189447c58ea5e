use elysium::errors::ErrorCode;
use elysium::math::{add_liquidity_delta, checked_mul_shift_right, to_timestamp_u64, Q64, Q64_RESOLUTION};

#[test]
fn q64_scale_matches_resolution() {
    assert_eq!(1u128 << Q64_RESOLUTION, Q64);
}

#[test]
fn mul_shift_right_exact_values() {
    // (2^64 * 3) >> 64 == 3
    assert_eq!(checked_mul_shift_right(Q64, 3), Ok(3));
    // (5 * 2^64 + anything below 2^64) >> 64 == 5
    assert_eq!(checked_mul_shift_right(5 * Q64 + (Q64 - 1), 1), Ok(5));
    // fractional part is truncated: (2^63 * 1) >> 64 == 0
    assert_eq!(checked_mul_shift_right(Q64 / 2, 1), Ok(0));
    assert_eq!(checked_mul_shift_right(0, u128::MAX), Ok(0));
    assert_eq!(checked_mul_shift_right(u128::MAX, 0), Ok(0));
}

#[test]
fn mul_shift_right_largest_product() {
    // u128::MAX * 1 fits the intermediate width: result is 2^64 - 1
    assert_eq!(checked_mul_shift_right(u128::MAX, 1), Ok(u64::MAX));
}

#[test]
fn mul_shift_right_overflow() {
    assert_eq!(
        checked_mul_shift_right(u128::MAX, 2),
        Err(ErrorCode::ArithmeticOverflow)
    );
    assert_eq!(
        checked_mul_shift_right(Q64, Q64),
        Err(ErrorCode::ArithmeticOverflow)
    );
}

#[test]
fn liquidity_delta_add_and_remove() {
    assert_eq!(add_liquidity_delta(10, 5), Ok(15));
    assert_eq!(add_liquidity_delta(10, -3), Ok(7));
    assert_eq!(add_liquidity_delta(10, 0), Ok(10));
    assert_eq!(add_liquidity_delta(10, -10), Ok(0));
    assert_eq!(add_liquidity_delta(0, i128::MAX), Ok(i128::MAX as u128));
}

#[test]
fn liquidity_delta_underflow() {
    assert_eq!(
        add_liquidity_delta(10, -11),
        Err(ErrorCode::LiquidityUnderflow)
    );
    assert_eq!(
        add_liquidity_delta(0, i128::MIN),
        Err(ErrorCode::LiquidityUnderflow)
    );
}

#[test]
fn liquidity_delta_overflow() {
    assert_eq!(
        add_liquidity_delta(u128::MAX, 1),
        Err(ErrorCode::LiquidityOverflow)
    );
}

#[test]
fn timestamp_conversion() {
    assert_eq!(to_timestamp_u64(0), Ok(0));
    assert_eq!(to_timestamp_u64(1_700_000_000), Ok(1_700_000_000));
    assert_eq!(to_timestamp_u64(-1), Err(ErrorCode::InvalidTimestamp));
}
