//! Fixed-point trigonometric routines: truncated power series after range
//! reduction. Each executable function is pinned exactly to its
//! specification mirror; sine and cosine are furthermore clamped into
//! `[-1, 1]` so that callers can rely on that range.

use crate::fixed::{
    fx_abs, fx_add, fx_add_s, fx_clamp, fx_clamp_s, fx_div, fx_div_s, fx_mul, fx_mul_s, fx_neg,
    fx_neg_s, fx_of_int, fx_sqrt, fx_sqrt_s, fx_sub, fx_sub_s, fx_to_int_floor, abs_i, sat64,
    FX_ONE,
};
use vstd::prelude::*;

verus! {

/// Raw fixed-point value of pi.
pub const FX_PI: i64 = 13493037704;

/// Raw fixed-point value of 2 pi.
pub const FX_TAU: i64 = 26986075409;

/// Raw fixed-point value of pi / 2.
pub const FX_HALF_PI: i64 = 6746518852;

/// Raw fixed-point value of 1/2.
pub const FX_HALF: i64 = 2147483648;

/// Argument folded to the nearest period: `x - round(x / 2pi) * 2pi`,
/// approximately in `[-pi, pi]`.
pub open spec fn reduce_s(x: int) -> int {
    let q = fx_div_s(x, FX_TAU as int);
    let k = fx_add_s(q, FX_HALF as int) / (FX_ONE as int);
    fx_sub_s(x, fx_mul_s(sat64(k * (FX_ONE as int)), FX_TAU as int))
}

/// Odd power series for sine on the reduced interval.
pub open spec fn sin_poly_s(z: int) -> int {
    let s = fx_mul_s(z, z);
    let t5 = fx_sub_s(FX_ONE as int, fx_div_s(s, sat64(110 * (FX_ONE as int))));
    let t4 = fx_sub_s(FX_ONE as int, fx_div_s(fx_mul_s(s, t5), sat64(72 * (FX_ONE as int))));
    let t3 = fx_sub_s(FX_ONE as int, fx_div_s(fx_mul_s(s, t4), sat64(42 * (FX_ONE as int))));
    let t2 = fx_sub_s(FX_ONE as int, fx_div_s(fx_mul_s(s, t3), sat64(20 * (FX_ONE as int))));
    let t1 = fx_sub_s(FX_ONE as int, fx_div_s(fx_mul_s(s, t2), sat64(6 * (FX_ONE as int))));
    fx_mul_s(z, t1)
}

/// Even power series for cosine on the reduced interval.
pub open spec fn cos_poly_s(z: int) -> int {
    let s = fx_mul_s(z, z);
    let t5 = fx_sub_s(FX_ONE as int, fx_div_s(s, sat64(90 * (FX_ONE as int))));
    let t4 = fx_sub_s(FX_ONE as int, fx_div_s(fx_mul_s(s, t5), sat64(56 * (FX_ONE as int))));
    let t3 = fx_sub_s(FX_ONE as int, fx_div_s(fx_mul_s(s, t4), sat64(30 * (FX_ONE as int))));
    let t2 = fx_sub_s(FX_ONE as int, fx_div_s(fx_mul_s(s, t3), sat64(12 * (FX_ONE as int))));
    let t1 = fx_sub_s(FX_ONE as int, fx_div_s(fx_mul_s(s, t2), sat64(2 * (FX_ONE as int))));
    t1
}

pub open spec fn sin_s(x: int) -> int {
    let y = reduce_s(x);
    let z = if y > FX_HALF_PI as int {
        fx_sub_s(FX_PI as int, y)
    } else if y < -(FX_HALF_PI as int) {
        fx_sub_s(fx_neg_s(FX_PI as int), y)
    } else {
        y
    };
    fx_clamp_s(sin_poly_s(z), -(FX_ONE as int), FX_ONE as int)
}

pub open spec fn cos_s(x: int) -> int {
    let y = reduce_s(x);
    let a = sat64(abs_i(y));
    let c = if a > FX_HALF_PI as int {
        fx_neg_s(cos_poly_s(fx_sub_s(FX_PI as int, a)))
    } else {
        cos_poly_s(a)
    };
    fx_clamp_s(c, -(FX_ONE as int), FX_ONE as int)
}

pub open spec fn tan_s(x: int) -> int {
    fx_div_s(sin_s(x), cos_s(x))
}

/// Arctangent on `[-1, 1]` by a quadratic-corrected linear approximation.
pub open spec fn atan_core_s(t: int) -> int {
    let a = sat64(abs_i(t));
    let corr = fx_add_s(1050978497, fx_mul_s(284756331, a));
    fx_sub_s(
        fx_mul_s(t, 3373259426),
        fx_mul_s(fx_mul_s(t, fx_sub_s(a, FX_ONE as int)), corr),
    )
}

pub open spec fn atan_s(t: int) -> int {
    if -(FX_ONE as int) <= t <= FX_ONE as int {
        atan_core_s(t)
    } else if t > 0 {
        fx_sub_s(FX_HALF_PI as int, atan_core_s(fx_div_s(FX_ONE as int, t)))
    } else {
        fx_sub_s(-(FX_HALF_PI as int), atan_core_s(fx_div_s(FX_ONE as int, t)))
    }
}

/// Four-quadrant arctangent; zero at the origin.
pub open spec fn atan2_s(y: int, x: int) -> int {
    if x == 0 {
        if y > 0 {
            FX_HALF_PI as int
        } else if y < 0 {
            -(FX_HALF_PI as int)
        } else {
            0
        }
    } else {
        let base = atan_s(fx_div_s(y, x));
        if x > 0 {
            base
        } else if y >= 0 {
            fx_add_s(base, FX_PI as int)
        } else {
            fx_sub_s(base, FX_PI as int)
        }
    }
}

/// Arcsine through the arctangent, with the argument clamped into `[-1, 1]`.
pub open spec fn asin_s(y: int) -> int {
    let yc = fx_clamp_s(y, -(FX_ONE as int), FX_ONE as int);
    atan2_s(yc, fx_sqrt_s(fx_sub_s(FX_ONE as int, fx_mul_s(yc, yc))))
}

/// Degrees to radians: `deg * pi / 180`.
pub open spec fn to_radians_s(deg: int) -> int {
    fx_div_s(fx_mul_s(deg, FX_PI as int), sat64(180 * (FX_ONE as int)))
}

pub fn to_radians(deg: i64) -> (r: i64)
    ensures
        r as int == to_radians_s(deg as int),
{
    fx_div(fx_mul(deg, FX_PI), fx_of_int(180))
}

fn reduce(x: i64) -> (r: i64)
    ensures
        r as int == reduce_s(x as int),
{
    let q: i64 = fx_div(x, FX_TAU);
    let k: i64 = fx_to_int_floor(fx_add(q, FX_HALF));
    fx_sub(x, fx_mul(fx_of_int(k), FX_TAU))
}

fn sin_poly(z: i64) -> (r: i64)
    ensures
        r as int == sin_poly_s(z as int),
{
    let s: i64 = fx_mul(z, z);
    let t5: i64 = fx_sub(FX_ONE, fx_div(s, fx_of_int(110)));
    let t4: i64 = fx_sub(FX_ONE, fx_div(fx_mul(s, t5), fx_of_int(72)));
    let t3: i64 = fx_sub(FX_ONE, fx_div(fx_mul(s, t4), fx_of_int(42)));
    let t2: i64 = fx_sub(FX_ONE, fx_div(fx_mul(s, t3), fx_of_int(20)));
    let t1: i64 = fx_sub(FX_ONE, fx_div(fx_mul(s, t2), fx_of_int(6)));
    fx_mul(z, t1)
}

fn cos_poly(z: i64) -> (r: i64)
    ensures
        r as int == cos_poly_s(z as int),
{
    let s: i64 = fx_mul(z, z);
    let t5: i64 = fx_sub(FX_ONE, fx_div(s, fx_of_int(90)));
    let t4: i64 = fx_sub(FX_ONE, fx_div(fx_mul(s, t5), fx_of_int(56)));
    let t3: i64 = fx_sub(FX_ONE, fx_div(fx_mul(s, t4), fx_of_int(30)));
    let t2: i64 = fx_sub(FX_ONE, fx_div(fx_mul(s, t3), fx_of_int(12)));
    let t1: i64 = fx_sub(FX_ONE, fx_div(fx_mul(s, t2), fx_of_int(2)));
    t1
}

/// Fixed-point sine, exact to its specification and within `[-1, 1]`.
pub fn sin_fx(x: i64) -> (r: i64)
    ensures
        r as int == sin_s(x as int),
        -(FX_ONE as int) <= r as int,
        r as int <= FX_ONE as int,
{
    let y: i64 = reduce(x);
    let z: i64 = if y > FX_HALF_PI {
        fx_sub(FX_PI, y)
    } else if y < -FX_HALF_PI {
        fx_sub(fx_neg(FX_PI), y)
    } else {
        y
    };
    fx_clamp(sin_poly(z), -FX_ONE, FX_ONE)
}

/// Fixed-point cosine, exact to its specification and within `[-1, 1]`.
pub fn cos_fx(x: i64) -> (r: i64)
    ensures
        r as int == cos_s(x as int),
        -(FX_ONE as int) <= r as int,
        r as int <= FX_ONE as int,
{
    let y: i64 = reduce(x);
    let a: i64 = fx_abs(y);
    let c: i64 = if a > FX_HALF_PI {
        fx_neg(cos_poly(fx_sub(FX_PI, a)))
    } else {
        cos_poly(a)
    };
    fx_clamp(c, -FX_ONE, FX_ONE)
}

/// Fixed-point tangent as the quotient of sine and cosine.
pub fn tan_fx(x: i64) -> (r: i64)
    ensures
        r as int == tan_s(x as int),
{
    fx_div(sin_fx(x), cos_fx(x))
}

fn atan_core(t: i64) -> (r: i64)
    ensures
        r as int == atan_core_s(t as int),
{
    let a: i64 = fx_abs(t);
    let corr: i64 = fx_add(1050978497, fx_mul(284756331, a));
    fx_sub(fx_mul(t, 3373259426), fx_mul(fx_mul(t, fx_sub(a, FX_ONE)), corr))
}

/// Fixed-point arctangent over the whole line.
pub fn atan_fx(t: i64) -> (r: i64)
    ensures
        r as int == atan_s(t as int),
{
    if -FX_ONE <= t && t <= FX_ONE {
        atan_core(t)
    } else if t > 0 {
        fx_sub(FX_HALF_PI, atan_core(fx_div(FX_ONE, t)))
    } else {
        fx_sub(-FX_HALF_PI, atan_core(fx_div(FX_ONE, t)))
    }
}

/// Fixed-point four-quadrant arctangent.
pub fn atan2_fx(y: i64, x: i64) -> (r: i64)
    ensures
        r as int == atan2_s(y as int, x as int),
{
    if x == 0 {
        if y > 0 {
            FX_HALF_PI
        } else if y < 0 {
            -FX_HALF_PI
        } else {
            0
        }
    } else {
        let base: i64 = atan_fx(fx_div(y, x));
        if x > 0 {
            base
        } else if y >= 0 {
            fx_add(base, FX_PI)
        } else {
            fx_sub(base, FX_PI)
        }
    }
}

/// Fixed-point arcsine.
pub fn asin_fx(y: i64) -> (r: i64)
    ensures
        r as int == asin_s(y as int),
{
    let yc: i64 = fx_clamp(y, -FX_ONE, FX_ONE);
    atan2_fx(yc, fx_sqrt(fx_sub(FX_ONE, fx_mul(yc, yc))))
}

} // verus!
