//! The fixed-point scalar operations: exact values, rounding toward
//! zero, saturation, and the pixel byte conversion.

use raytrace::fixed::{fx_add, fx_sub, fx_mul, fx_div, fx_sqrt, chan_byte, ONE, SAT};

#[test]
fn mul_exact() {
    // 3 * 0.5 == 1.5
    assert_eq!(fx_mul(3 * ONE, ONE / 2), 3 * ONE / 2);
    // 1.5 * 1.5 == 2.25
    assert_eq!(fx_mul(98304, 98304), 147456);
}

#[test]
fn mul_rounds_toward_zero() {
    // tiny negative product truncates up to zero, not down to -1
    assert_eq!(fx_mul(-3, 3), 0);
    assert_eq!(fx_mul(-ONE, 3), -3);
}

#[test]
fn mul_saturates() {
    assert_eq!(fx_mul(SAT, SAT), SAT);
    assert_eq!(fx_mul(-SAT, SAT), -SAT);
}

#[test]
fn add_sub_saturate() {
    assert_eq!(fx_add(SAT, SAT), SAT);
    assert_eq!(fx_sub(-SAT, SAT), -SAT);
    assert_eq!(fx_add(ONE, ONE), 2 * ONE);
    assert_eq!(fx_sub(ONE, 3 * ONE), -2 * ONE);
}

#[test]
fn div_exact_and_truncating() {
    // 1 / 3 == 0.3333.. truncated
    assert_eq!(fx_div(ONE, 3 * ONE), 21845);
    assert_eq!(fx_div(-ONE, 3 * ONE), -21845);
    assert_eq!(fx_div(6 * ONE, 2 * ONE), 3 * ONE);
}

#[test]
fn div_by_zero_is_zero() {
    assert_eq!(fx_div(12345, 0), 0);
    assert_eq!(fx_div(-12345, 0), 0);
}

#[test]
fn sqrt_values() {
    assert_eq!(fx_sqrt(4 * ONE), 2 * ONE);
    assert_eq!(fx_sqrt(ONE / 4), ONE / 2);
    assert_eq!(fx_sqrt(0), 0);
    assert_eq!(fx_sqrt(-5 * ONE), 0);
    // sqrt(2) to fixed precision: floor(sqrt(2) * 65536) == 92681
    assert_eq!(fx_sqrt(2 * ONE), 92681);
}

#[test]
fn chan_byte_values() {
    assert_eq!(chan_byte(ONE), 255);
    assert_eq!(chan_byte(ONE / 2), 127);
    assert_eq!(chan_byte(0), 0);
    assert_eq!(chan_byte(-5), 0);
    // clamped at one before scaling
    assert_eq!(chan_byte(2 * ONE), 255);
    assert_eq!(chan_byte(ONE - 1), 254);
}
