//! Unit-quaternion rotations used to orient composite geometry.

use crate::fixed::{
    fx_add, fx_add_s, fx_div, fx_div_s, fx_mul, fx_mul_s, fx_neg, fx_neg_s, fx_sub, fx_sub_s,
};
use crate::trig::{cos_fx, cos_s, sin_fx, sin_s};
use crate::vector::{Point, Vector, V3};
use vstd::prelude::*;

verus! {

#[derive(Clone, Copy, Debug, PartialEq, Eq, Structural)]
pub struct Quaternion {
    pub x: i64,
    pub y: i64,
    pub z: i64,
    pub w: i64,
}

/// Mathematical view of a quaternion: its four raw components.
pub ghost struct Q4 {
    pub x: int,
    pub y: int,
    pub z: int,
    pub w: int,
}

impl View for Quaternion {
    type V = Q4;

    open spec fn view(&self) -> Q4 {
        Q4 { x: self.x as int, y: self.y as int, z: self.z as int, w: self.w as int }
    }
}

/// The Hamilton product of two quaternions.
pub open spec fn q_mul(a: Q4, b: Q4) -> Q4 {
    Q4 {
        x: fx_sub_s(
            fx_add_s(fx_add_s(fx_mul_s(a.w, b.x), fx_mul_s(a.x, b.w)), fx_mul_s(a.y, b.z)),
            fx_mul_s(a.z, b.y),
        ),
        y: fx_add_s(
            fx_add_s(fx_sub_s(fx_mul_s(a.w, b.y), fx_mul_s(a.x, b.z)), fx_mul_s(a.y, b.w)),
            fx_mul_s(a.z, b.x),
        ),
        z: fx_add_s(
            fx_sub_s(fx_add_s(fx_mul_s(a.w, b.z), fx_mul_s(a.x, b.y)), fx_mul_s(a.y, b.x)),
            fx_mul_s(a.z, b.w),
        ),
        w: fx_sub_s(
            fx_sub_s(fx_sub_s(fx_mul_s(a.w, b.w), fx_mul_s(a.x, b.x)), fx_mul_s(a.y, b.y)),
            fx_mul_s(a.z, b.z),
        ),
    }
}

/// The conjugate, which inverts a unit quaternion.
pub open spec fn q_inverse(a: Q4) -> Q4 {
    Q4 { x: fx_neg_s(a.x), y: fx_neg_s(a.y), z: fx_neg_s(a.z), w: a.w }
}

/// Conjugation `q^-1 * p * q` of the point `p` embedded as a pure quaternion.
#[verifier::opaque]
pub open spec fn q_rotate_point(q: Q4, p: V3) -> V3 {
    let prime = q_mul(q_mul(q_inverse(q), Q4 { x: p.x, y: p.y, z: p.z, w: 0 }), q);
    V3 { x: prime.x, y: prime.y, z: prime.z }
}

/// The rotation quaternion for the given axis and angle.
pub open spec fn q_from_axis_angle(axis: V3, angle: int) -> Q4 {
    let half_theta = fx_div_s(angle, crate::fixed::fx_int_s(2));
    let sin_half = sin_s(half_theta);
    let cos_half = cos_s(half_theta);
    Q4 {
        x: fx_mul_s(axis.x, sin_half),
        y: fx_mul_s(axis.y, sin_half),
        z: fx_mul_s(axis.z, sin_half),
        w: cos_half,
    }
}

impl Quaternion {
    pub fn new(x: i64, y: i64, z: i64, w: i64) -> (r: Self)
        ensures
            r@ == (Q4 { x: x as int, y: y as int, z: z as int, w: w as int }),
    {
        Quaternion { x, y, z, w }
    }

    pub fn from_axis_angle(axis: Vector, angle: i64) -> (r: Self)
        ensures
            r@ == q_from_axis_angle(axis@, angle as int),
    {
        let half_theta: i64 = fx_div(angle, crate::fixed::fx_of_int(2));
        let sin_half_theta: i64 = sin_fx(half_theta);
        let cos_half_theta: i64 = cos_fx(half_theta);
        Quaternion {
            x: fx_mul(axis.x, sin_half_theta),
            y: fx_mul(axis.y, sin_half_theta),
            z: fx_mul(axis.z, sin_half_theta),
            w: cos_half_theta,
        }
    }

    pub fn inverse(&self) -> (r: Self)
        ensures
            r@ == q_inverse(self@),
    {
        Quaternion { x: fx_neg(self.x), y: fx_neg(self.y), z: fx_neg(self.z), w: self.w }
    }

    pub fn mul(self, rhs: Self) -> (r: Self)
        ensures
            r@ == q_mul(self@, rhs@),
    {
        Quaternion {
            x: fx_sub(
                fx_add(fx_add(fx_mul(self.w, rhs.x), fx_mul(self.x, rhs.w)), fx_mul(self.y, rhs.z)),
                fx_mul(self.z, rhs.y),
            ),
            y: fx_add(
                fx_add(fx_sub(fx_mul(self.w, rhs.y), fx_mul(self.x, rhs.z)), fx_mul(self.y, rhs.w)),
                fx_mul(self.z, rhs.x),
            ),
            z: fx_add(
                fx_sub(fx_add(fx_mul(self.w, rhs.z), fx_mul(self.x, rhs.y)), fx_mul(self.y, rhs.x)),
                fx_mul(self.z, rhs.w),
            ),
            w: fx_sub(
                fx_sub(fx_sub(fx_mul(self.w, rhs.w), fx_mul(self.x, rhs.x)), fx_mul(self.y, rhs.y)),
                fx_mul(self.z, rhs.z),
            ),
        }
    }

    pub fn rotate_point(self, point: Point) -> (r: Point)
        ensures
            r@ == q_rotate_point(self@, point@),
    {
        let prime = self.inverse().mul(Quaternion { x: point.x, y: point.y, z: point.z, w: 0 }).mul(
            self,
        );
        proof {
            reveal(q_rotate_point);
        }
        Vector { x: prime.x, y: prime.y, z: prime.z }
    }
}

} // verus!
