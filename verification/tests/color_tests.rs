//! Color arithmetic, averaging, gamma correction, clamping and byte
//! conversion. Raw values are fixed point with 32 fractional bits.

use raytracer::color::{Clamp, Color, GammaCorrect};
use raytracer::fixed::FX_ONE;
use raytracer::vector::Vector;

const TENTH: i64 = 429496729; // floor(0.1 * 2^32)
const FIFTH: i64 = 858993459; // floor(0.2 * 2^32)
const HALF: i64 = FX_ONE / 2;
const QUARTER: i64 = FX_ONE / 4;

#[test]
fn test_new() {
    let color = Color::new(TENTH, FIFTH, 1288490188);
    assert_eq!(color.r, TENTH);
    assert_eq!(color.g, FIFTH);
    assert_eq!(color.b, 1288490188);
}

#[test]
fn test_from_color_for_u8_array() {
    let color = Color::new(0, HALF, FX_ONE);
    let bytes: [u8; 3] = color.to_bytes();
    assert_eq!(bytes, [0, 127, 255]);
}

#[test]
fn test_from_u8_array_for_color() {
    let bytes = [0u8, 51, 255];
    let color = Color::of_bytes(bytes);
    assert_eq!(color, Color::new(0, FIFTH, FX_ONE));
}

#[test]
fn test_from_u8_slice_for_color() {
    let slice: &[u8] = &[0, 51, 255];
    let color = Color::of_slice(slice);
    assert_eq!(color, Color::new(0, FIFTH, FX_ONE));
}

#[test]
fn test_from_vector_for_color() {
    let vector = Vector::new(0, HALF, FX_ONE);
    let color = Color::of_vector(vector);
    assert_eq!(color, Color::new(0, HALF, FX_ONE));
}

#[test]
fn test_from_vec_of_colors_for_color() {
    let colors = vec![Color::new(0, HALF, FX_ONE), Color::new(HALF, FX_ONE, FX_ONE)];
    let color = Color::average(&colors);
    assert_eq!(color, Color::new(QUARTER, 3 * FX_ONE / 4, FX_ONE));
}

#[test]
fn test_gamma_correct() {
    let color = Color::new(0, QUARTER, FX_ONE);
    let gamma_corrected = color.gamma_correct();
    assert_eq!(gamma_corrected, Color::new(0, HALF, FX_ONE));
}

#[test]
fn test_clamp() {
    let color = Color::new(0, QUARTER, 5 * FX_ONE / 4);
    let clamped = color.clamp(HALF, FX_ONE);
    assert_eq!(clamped, Color::new(HALF, HALF, FX_ONE));
}

#[test]
fn color_test_add() {
    let color1 = Color::new(0, QUARTER, FX_ONE);
    let color2 = Color::new(HALF, 3 * FX_ONE / 4, FX_ONE);
    let added = color1.add(color2);
    assert_eq!(added, Color::new(HALF, FX_ONE, 2 * FX_ONE));
}

#[test]
fn test_mul() {
    let color1 = Color::new(0, QUARTER, FX_ONE);
    let color2 = Color::new(HALF, 3 * FX_ONE / 4, FX_ONE);
    let multiplied = color1.mul(color2);
    // 0.25 * 0.75 == 0.1875 exactly
    assert_eq!(multiplied, Color::new(0, 3 * FX_ONE / 16, FX_ONE));
}

#[test]
fn test_mul_f64_for_color() {
    let color = Color::new(0, QUARTER, FX_ONE);
    let multiplied = color.mul_scalar(2 * FX_ONE);
    assert_eq!(multiplied, Color::new(0, HALF, 2 * FX_ONE));
}

#[test]
fn test_mul_color_for_f64() {
    let color = Color::new(0, QUARTER, FX_ONE);
    let multiplied = color.mul_scalar(2 * FX_ONE);
    assert_eq!(multiplied, Color::new(0, HALF, 2 * FX_ONE));
}

#[test]
fn test_div_f64_for_color() {
    let color = Color::new(0, QUARTER, FX_ONE);
    let divided = color.div_scalar(2 * FX_ONE);
    assert_eq!(divided, Color::new(0, FX_ONE / 8, HALF));
}

#[test]
fn test_div_color_for_f64() {
    let color = Color::new(TENTH, QUARTER, FX_ONE);
    let divided = Color::scalar_div(2 * FX_ONE, color);
    // 2 / 0.1 under truncated fixed-point division; the other channels are
    // exact
    assert_eq!(divided, Color::new(85899346040, 8 * FX_ONE, 2 * FX_ONE));
}
