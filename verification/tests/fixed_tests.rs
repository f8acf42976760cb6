//! Edge behavior of the fixed-point layer: saturation at the representation
//! bounds, division-by-zero conventions, roots and rounding.

use raytracer::color::Color;
use raytracer::fixed::{
    emod, fx_add, fx_div, fx_floor, fx_fract, fx_mul, fx_neg, fx_of_int, fx_sqrt, fx_sub,
    fx_to_int_floor, fx_to_int_trunc, FX_ONE,
};

#[test]
fn test_saturating_bounds() {
    assert_eq!(fx_add(i64::MAX, 1), i64::MAX);
    assert_eq!(fx_sub(i64::MIN, 1), i64::MIN);
    assert_eq!(fx_neg(i64::MIN), i64::MAX);
    assert_eq!(fx_mul(i64::MAX, 2 * FX_ONE), i64::MAX);
}

#[test]
fn test_division_by_zero_saturates() {
    assert_eq!(fx_div(FX_ONE, 0), i64::MAX);
    assert_eq!(fx_div(-FX_ONE, 0), i64::MIN);
    assert_eq!(fx_div(0, 0), 0);
}

#[test]
fn test_sqrt_values() {
    assert_eq!(fx_sqrt(4 * FX_ONE), 2 * FX_ONE);
    assert_eq!(fx_sqrt(FX_ONE / 4), FX_ONE / 2);
    assert_eq!(fx_sqrt(0), 0);
    assert_eq!(fx_sqrt(-FX_ONE), 0);
}

#[test]
fn test_floor_and_fract() {
    assert_eq!(fx_floor(3 * FX_ONE / 2), FX_ONE);
    assert_eq!(fx_floor(-3 * FX_ONE / 2), -2 * FX_ONE);
    assert_eq!(fx_to_int_floor(-3 * FX_ONE / 2), -2);
    assert_eq!(fx_to_int_trunc(-3 * FX_ONE / 2), -1);
    assert_eq!(fx_fract(5 * FX_ONE / 4), FX_ONE / 4);
    assert_eq!(fx_fract(-FX_ONE / 4), 3 * FX_ONE / 4);
}

#[test]
fn test_emod_wraps_negatives() {
    assert_eq!(emod(-1, 256), 255);
    assert_eq!(emod(-256, 256), 0);
    assert_eq!(emod(300, 256), 44);
}

#[test]
fn test_of_int_scales() {
    assert_eq!(fx_of_int(555), 555 * FX_ONE);
    assert_eq!(fx_of_int(-800), -800 * FX_ONE);
}

#[test]
fn test_average_of_no_samples_is_black() {
    // an empty sample set runs through the division-by-zero convention
    let empty: Vec<Color> = vec![];
    assert_eq!(Color::average(&empty), Color::new(0, 0, 0));
}

#[test]
fn test_channel_bytes_saturate() {
    // channels outside [0, 1] are clamped by the byte conversion
    let c = Color::new(2 * FX_ONE, -FX_ONE, FX_ONE / 2);
    assert_eq!(c.to_bytes(), [255, 0, 127]);
}
