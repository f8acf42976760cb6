//! 3D vector / point algebra over fixed-point scalars.

use crate::fixed::{
    abs_i, fx_abs, fx_add, fx_add_s, fx_div, fx_div_s, fx_min, fx_min_s, fx_mul, fx_mul_s, fx_neg,
    fx_neg_s, fx_sqrt, fx_sqrt_s, fx_sub, fx_sub_s, sat64, tdiv, FX_NEAR_ZERO, FX_ONE,
};
use crate::rng::RandomSource;
use vstd::prelude::*;

verus! {

#[derive(Clone, Copy, Debug, PartialEq, Eq, Structural)]
pub struct Vector {
    pub x: i64,
    pub y: i64,
    pub z: i64,
}

pub type Point = Vector;

/// Mathematical view of a vector: its three raw coordinates as integers.
pub ghost struct V3 {
    pub x: int,
    pub y: int,
    pub z: int,
}

impl View for Vector {
    type V = V3;

    open spec fn view(&self) -> V3 {
        V3 { x: self.x as int, y: self.y as int, z: self.z as int }
    }
}

pub open spec fn v_add(a: V3, b: V3) -> V3 {
    V3 { x: fx_add_s(a.x, b.x), y: fx_add_s(a.y, b.y), z: fx_add_s(a.z, b.z) }
}

pub open spec fn v_sub(a: V3, b: V3) -> V3 {
    V3 { x: fx_sub_s(a.x, b.x), y: fx_sub_s(a.y, b.y), z: fx_sub_s(a.z, b.z) }
}

pub open spec fn v_neg(a: V3) -> V3 {
    V3 { x: fx_neg_s(a.x), y: fx_neg_s(a.y), z: fx_neg_s(a.z) }
}

pub open spec fn v_scale(a: V3, s: int) -> V3 {
    V3 { x: fx_mul_s(a.x, s), y: fx_mul_s(a.y, s), z: fx_mul_s(a.z, s) }
}

pub open spec fn v_div(a: V3, s: int) -> V3 {
    V3 { x: fx_div_s(a.x, s), y: fx_div_s(a.y, s), z: fx_div_s(a.z, s) }
}

pub open spec fn v_dot(a: V3, b: V3) -> int {
    fx_add_s(fx_add_s(fx_mul_s(a.x, b.x), fx_mul_s(a.y, b.y)), fx_mul_s(a.z, b.z))
}

pub open spec fn v_cross(a: V3, b: V3) -> V3 {
    V3 {
        x: fx_sub_s(fx_mul_s(a.y, b.z), fx_mul_s(a.z, b.y)),
        y: fx_sub_s(fx_mul_s(a.z, b.x), fx_mul_s(a.x, b.z)),
        z: fx_sub_s(fx_mul_s(a.x, b.y), fx_mul_s(a.y, b.x)),
    }
}

pub open spec fn v_length_squared(a: V3) -> int {
    v_dot(a, a)
}

pub open spec fn v_length(a: V3) -> int {
    fx_sqrt_s(v_length_squared(a))
}

pub open spec fn v_normalize(a: V3) -> V3 {
    v_div(a, v_length(a))
}

/// `v - 2 (v . n) n`, the mirror image of `v` about the plane with normal `n`.
pub open spec fn v_reflect(v: V3, n: V3) -> V3 {
    v_sub(v, v_scale(n, fx_add_s(v_dot(v, n), v_dot(v, n))))
}

/// Snell-law refraction of the unit direction `v` at normal `n` with index
/// ratio `ratio`.
pub open spec fn v_refract(v: V3, n: V3, ratio: int) -> V3 {
    let cos_theta = fx_min_s(v_dot(v_neg(v), n), FX_ONE as int);
    let r_perp = v_scale(v_add(v, v_scale(n, cos_theta)), ratio);
    let r_par = v_scale(
        n,
        fx_neg_s(fx_sqrt_s(sat64(abs_i(fx_sub_s(FX_ONE as int, v_length_squared(r_perp)))))),
    );
    v_add(r_perp, r_par)
}

/// All three coordinates are below the degeneracy threshold in magnitude.
pub open spec fn v_near_zero(a: V3) -> bool {
    abs_i(a.x) < FX_NEAR_ZERO as int && abs_i(a.y) < FX_NEAR_ZERO as int && abs_i(a.z)
        < FX_NEAR_ZERO as int
}

/// A point strictly inside the unit ball has length strictly below one.
pub proof fn lemma_unit_ball_length(a: V3)
    requires
        v_length_squared(a) < FX_ONE as int,
    ensures
        v_length(a) < FX_ONE as int,
{
    crate::fixed::lemma_fx_sqrt_lt_one(v_length_squared(a));
}

/// One bounded component product negates exactly, and its magnitude stays
/// below 2^60.
pub proof fn lemma_mul_neg_bounded(a: int, b: int)
    requires
        abs_i(a) <= 0x400000000000,
        abs_i(b) <= 0x400000000000,
    ensures
        fx_mul_s(a, fx_neg_s(b)) == fx_neg_s(fx_mul_s(a, b)),
        abs_i(fx_mul_s(a, b)) <= 0x1000000000000000,
{
    assert(abs_i(a * b) <= 0x400000000000int * 0x400000000000int) by (nonlinear_arith)
        requires
            abs_i(a) <= 0x400000000000,
            abs_i(b) <= 0x400000000000,
    ;
    assert(a * (-b) == -(a * b)) by (nonlinear_arith);
    crate::fixed::lemma_tdiv_neg(a * b, FX_ONE as int);
    crate::fixed::lemma_tdiv_mag(a * b, FX_ONE as int);
    vstd::arithmetic::div_mod::lemma_div_is_ordered(
        abs_i(a * b),
        0x400000000000int * 0x400000000000int,
        FX_ONE as int,
    );
    assert(0x400000000000int * 0x400000000000int / (FX_ONE as int) == 0x1000000000000000);
    assert(fx_neg_s(b) == -b);
    assert(fx_mul_s(a, fx_neg_s(b)) == sat64(tdiv(-(a * b), FX_ONE as int)));
    assert(tdiv(-(a * b), FX_ONE as int) == -tdiv(a * b, FX_ONE as int));
}

/// Under coordinate bounds that keep every product and sum of the dot
/// computation away from saturation, negating one argument negates the
/// fixed-point dot product exactly.
pub proof fn lemma_dot_neg_bounded(d: V3, n: V3)
    requires
        abs_i(d.x) <= 0x400000000000,
        abs_i(d.y) <= 0x400000000000,
        abs_i(d.z) <= 0x400000000000,
        abs_i(n.x) <= 0x400000000000,
        abs_i(n.y) <= 0x400000000000,
        abs_i(n.z) <= 0x400000000000,
    ensures
        v_dot(d, v_neg(n)) == -v_dot(d, n),
{
    lemma_mul_neg_bounded(d.x, n.x);
    lemma_mul_neg_bounded(d.y, n.y);
    lemma_mul_neg_bounded(d.z, n.z);
    let m1 = fx_mul_s(d.x, n.x);
    let m2 = fx_mul_s(d.y, n.y);
    let m3 = fx_mul_s(d.z, n.z);
    assert(fx_add_s(fx_neg_s(m1), fx_neg_s(m2)) == -(m1 + m2));
    assert(fx_add_s(fx_add_s(fx_neg_s(m1), fx_neg_s(m2)), fx_neg_s(m3)) == -(m1 + m2 + m3));
    assert(fx_add_s(fx_add_s(m1, m2), m3) == m1 + m2 + m3);
}

/// The fixed-point dot product is symmetric in its arguments.
pub proof fn lemma_dot_comm(a: V3, b: V3)
    ensures
        v_dot(a, b) == v_dot(b, a),
{
    assert(a.x * b.x == b.x * a.x && a.y * b.y == b.y * a.y && a.z * b.z == b.z * a.z)
        by (nonlinear_arith);
}

/// A squared coordinate contributes a nonnegative term.
proof fn lemma_sq_nonneg(x: int)
    ensures
        fx_mul_s(x, x) >= 0,
{
    assert(x * x >= 0) by (nonlinear_arith);
    crate::fixed::lemma_tdiv_mag(x * x, FX_ONE as int);
    vstd::arithmetic::div_mod::lemma_div_pos_is_pos(x * x, FX_ONE as int);
}

/// A coordinate beyond 2^46 in magnitude forces a squared term of at least
/// 2^60.
proof fn lemma_sq_big(x: int)
    requires
        abs_i(x) > 0x400000000000,
    ensures
        fx_mul_s(x, x) >= 0x1000000000000000,
{
    assert(x * x >= 0x400000000000int * 0x400000000000int) by (nonlinear_arith)
        requires
            abs_i(x) > 0x400000000000,
    ;
    crate::fixed::lemma_tdiv_mag(x * x, FX_ONE as int);
    vstd::arithmetic::div_mod::lemma_div_pos_is_pos(x * x, FX_ONE as int);
    vstd::arithmetic::div_mod::lemma_div_is_ordered(
        0x400000000000int * 0x400000000000int,
        x * x,
        FX_ONE as int,
    );
    assert(0x400000000000int * 0x400000000000int / (FX_ONE as int) == 0x1000000000000000);
}

/// A vector whose length stays near one has every coordinate far below the
/// saturation-avoidance bound.
pub proof fn lemma_length_bounds_components(a: V3)
    requires
        v_length(a) <= (FX_ONE as int) + 42,
    ensures
        abs_i(a.x) <= 0x400000000000,
        abs_i(a.y) <= 0x400000000000,
        abs_i(a.z) <= 0x400000000000,
{
    lemma_sq_nonneg(a.x);
    lemma_sq_nonneg(a.y);
    lemma_sq_nonneg(a.z);
    if abs_i(a.x) > 0x400000000000 {
        lemma_sq_big(a.x);
        lemma_big_square_means_long(a);
    }
    if abs_i(a.y) > 0x400000000000 {
        lemma_sq_big(a.y);
        lemma_big_square_means_long(a);
    }
    if abs_i(a.z) > 0x400000000000 {
        lemma_sq_big(a.z);
        lemma_big_square_means_long(a);
    }
}

/// If any squared term reaches 2^60, the length reaches 2^46.
proof fn lemma_big_square_means_long(a: V3)
    requires
        fx_mul_s(a.x, a.x) >= 0,
        fx_mul_s(a.y, a.y) >= 0,
        fx_mul_s(a.z, a.z) >= 0,
        fx_mul_s(a.x, a.x) >= 0x1000000000000000 || fx_mul_s(a.y, a.y) >= 0x1000000000000000
            || fx_mul_s(a.z, a.z) >= 0x1000000000000000,
    ensures
        v_length(a) >= 0x400000000000,
{
    let q = v_length_squared(a);
    assert(q >= 0x1000000000000000);
    assert(q * (FX_ONE as int) >= 0x1000000000000000 * (FX_ONE as int)) by (nonlinear_arith)
        requires
            q >= 0x1000000000000000,
    ;
    assert(0x1000000000000000 * (FX_ONE as int) == 0x100000000000000000000000);
    crate::fixed::lemma_isqrt_monotone(
        0x100000000000000000000000nat,
        (q * (FX_ONE as int)) as nat,
    );
    assert(0x400000000000int * 0x400000000000int == 0x100000000000000000000000int)
        by (nonlinear_arith);
    assert(0x100000000000000000000000 < (0x400000000000int + 1) * (0x400000000000int + 1))
        by (nonlinear_arith);
    crate::fixed::lemma_isqrt_unique(0x100000000000000000000000nat, 0x400000000000nat);
}

/// Negating a coordinate-bounded vector preserves its length exactly.
pub proof fn lemma_neg_preserves_length(a: V3)
    requires
        abs_i(a.x) <= 0x400000000000,
        abs_i(a.y) <= 0x400000000000,
        abs_i(a.z) <= 0x400000000000,
    ensures
        v_length(v_neg(a)) == v_length(a),
{
    lemma_neg_square(a.x);
    lemma_neg_square(a.y);
    lemma_neg_square(a.z);
}

/// Negating a bounded coordinate leaves its squared term unchanged.
proof fn lemma_neg_square(x: int)
    requires
        abs_i(x) <= 0x400000000000,
    ensures
        fx_mul_s(fx_neg_s(x), fx_neg_s(x)) == fx_mul_s(x, x),
{
    lemma_mul_neg_bounded(x, x);
    assert(fx_neg_s(x) == -x);
    assert((-x) * (-x) == x * x) by (nonlinear_arith);
}

/// The half-unit axis sample normalizes exactly to the axis unit vector,
/// whose length is exactly one.
pub proof fn lemma_axis_unit()
    ensures
        v_length_squared(V3 { x: 2147483648, y: 0, z: 0 }) < FX_ONE as int,
        v_normalize(V3 { x: 2147483648, y: 0, z: 0 }) == (V3 { x: 4294967296, y: 0, z: 0 }),
        v_length(V3 { x: 4294967296, y: 0, z: 0 }) == FX_ONE as int,
{
    lemma_half_unit_in_ball();
    let h = V3 { x: 2147483648, y: 0, z: 0 };
    // length of the half sample: isqrt(2^30 * 2^32) == 2^31
    assert(1073741824 * (FX_ONE as int) == 4611686018427387904);
    assert(2147483648 * 2147483648 == 4611686018427387904) by (nonlinear_arith);
    assert(4611686018427387904 < 2147483649 * 2147483649) by (nonlinear_arith);
    crate::fixed::lemma_isqrt_unique(4611686018427387904nat, 2147483648nat);
    assert(v_length(h) == 2147483648);
    // components of the normalization
    assert(2147483648 * (FX_ONE as int) == 9223372036854775808);
    assert(9223372036854775808int / 2147483648int == 4294967296int);
    assert(abs_i(9223372036854775808) == 9223372036854775808 && abs_i(2147483648) == 2147483648);
    assert(abs_i(9223372036854775808) / abs_i(2147483648) == 4294967296);
    assert(tdiv(2147483648 * (FX_ONE as int), 2147483648) == 4294967296);
    assert(fx_div_s(2147483648, 2147483648) == 4294967296);
    assert(0int / 2147483648int == 0int);
    assert(abs_i(0) / abs_i(2147483648) == 0);
    assert(fx_div_s(0, 2147483648) == 0);
    assert(v_normalize(h) == (V3 { x: 4294967296, y: 0, z: 0 }));
    // length of the axis unit vector: isqrt(2^32 * 2^64... ) via 2^32 squared
    let u = V3 { x: 4294967296, y: 0, z: 0 };
    assert(4294967296 * 4294967296 == 18446744073709551616) by (nonlinear_arith);
    assert(18446744073709551616int / 4294967296int == 4294967296int);
    assert(abs_i(18446744073709551616) == 18446744073709551616 && abs_i(FX_ONE as int)
        == 4294967296);
    assert(abs_i(18446744073709551616) / abs_i(FX_ONE as int) == 4294967296);
    assert(tdiv(4294967296int * 4294967296int, FX_ONE as int) == 4294967296);
    assert(fx_mul_s(4294967296int, 4294967296int) == 4294967296);
    assert(abs_i(0) / abs_i(FX_ONE as int) == 0);
    assert(fx_mul_s(0, 0) == 0);
    assert(v_length_squared(u) == 4294967296);
    assert(4294967296 * (FX_ONE as int) == 18446744073709551616);
    assert(18446744073709551616 < 4294967297 * 4294967297) by (nonlinear_arith);
    crate::fixed::lemma_isqrt_unique(18446744073709551616nat, 4294967296nat);
    assert(v_length(u) == 4294967296);
}

proof fn lemma_half_unit_in_ball()
    ensures
        v_length_squared(V3 { x: 2147483648, y: 0, z: 0 }) == 1073741824,
        v_length_squared(V3 { x: 2147483648, y: 0, z: 0 }) < FX_ONE as int,
{
    let h: int = 2147483648;
    assert(h * h == 4611686018427387904) by (nonlinear_arith)
        requires
            h == 2147483648,
    ;
    assert(abs_i(4611686018427387904) == 4611686018427387904);
    assert(abs_i(FX_ONE as int) == 4294967296);
    assert(4611686018427387904int / 4294967296int == 1073741824int);
    assert(abs_i(4611686018427387904) / abs_i(FX_ONE as int) == 1073741824);
    assert(tdiv(h * h, FX_ONE as int) == 1073741824);
    assert(fx_mul_s(h, h) == 1073741824);
    assert(abs_i(0) / abs_i(FX_ONE as int) == 0);
    assert(fx_mul_s(0, 0) == 0);
    assert(v_length_squared(V3 { x: h, y: 0, z: 0 }) == 1073741824);
}

impl Vector {
    pub fn new(x: i64, y: i64, z: i64) -> (r: Self)
        ensures
            r@ == (V3 { x: x as int, y: y as int, z: z as int }),
    {
        Vector { x, y, z }
    }

    pub fn zero() -> (r: Self)
        ensures
            r@ == (V3 { x: 0, y: 0, z: 0 }),
    {
        Vector { x: 0, y: 0, z: 0 }
    }

    pub fn dot(&self, other: &Self) -> (r: i64)
        ensures
            r as int == v_dot(self@, other@),
    {
        fx_add(fx_add(fx_mul(self.x, other.x), fx_mul(self.y, other.y)), fx_mul(self.z, other.z))
    }

    pub fn cross(&self, other: &Self) -> (r: Self)
        ensures
            r@ == v_cross(self@, other@),
    {
        Vector {
            x: fx_sub(fx_mul(self.y, other.z), fx_mul(self.z, other.y)),
            y: fx_sub(fx_mul(self.z, other.x), fx_mul(self.x, other.z)),
            z: fx_sub(fx_mul(self.x, other.y), fx_mul(self.y, other.x)),
        }
    }

    pub fn length(&self) -> (r: i64)
        ensures
            r as int == v_length(self@),
    {
        fx_sqrt(self.length_squared())
    }

    pub fn length_squared(&self) -> (r: i64)
        ensures
            r as int == v_length_squared(self@),
    {
        self.dot(self)
    }

    pub fn normalize(&self) -> (r: Self)
        ensures
            r@ == v_normalize(self@),
    {
        let length: i64 = self.length();
        Vector {
            x: fx_div(self.x, length),
            y: fx_div(self.y, length),
            z: fx_div(self.z, length),
        }
    }

    pub fn add(self, rhs: Self) -> (r: Self)
        ensures
            r@ == v_add(self@, rhs@),
    {
        Vector { x: fx_add(self.x, rhs.x), y: fx_add(self.y, rhs.y), z: fx_add(self.z, rhs.z) }
    }

    pub fn sub(self, rhs: Self) -> (r: Self)
        ensures
            r@ == v_sub(self@, rhs@),
    {
        Vector { x: fx_sub(self.x, rhs.x), y: fx_sub(self.y, rhs.y), z: fx_sub(self.z, rhs.z) }
    }

    pub fn neg(self) -> (r: Self)
        ensures
            r@ == v_neg(self@),
    {
        Vector { x: fx_neg(self.x), y: fx_neg(self.y), z: fx_neg(self.z) }
    }

    pub fn mul(self, rhs: i64) -> (r: Self)
        ensures
            r@ == v_scale(self@, rhs as int),
    {
        Vector { x: fx_mul(self.x, rhs), y: fx_mul(self.y, rhs), z: fx_mul(self.z, rhs) }
    }

    pub fn div(self, rhs: i64) -> (r: Self)
        ensures
            r@ == v_div(self@, rhs as int),
    {
        Vector { x: fx_div(self.x, rhs), y: fx_div(self.y, rhs), z: fx_div(self.z, rhs) }
    }

    pub fn mul_assign(&mut self, rhs: i64)
        ensures
            final(self)@ == v_scale(old(self)@, rhs as int),
    {
        *self = self.mul(rhs);
    }

    pub fn reflect(self, normal: &Vector) -> (r: Self)
        ensures
            r@ == v_reflect(self@, normal@),
    {
        let d: i64 = self.dot(normal);
        self.sub(normal.mul(fx_add(d, d)))
    }

    pub fn refract(self, normal: &Vector, etai_over_etat: i64) -> (r: Self)
        ensures
            r@ == v_refract(self@, normal@, etai_over_etat as int),
    {
        let cos_theta: i64 = fx_min(self.neg().dot(normal), FX_ONE);
        let r_out_perp: Vector = self.add(normal.mul(cos_theta)).mul(etai_over_etat);
        let r_out_parallel: Vector = normal.mul(
            fx_neg(fx_sqrt(fx_abs(fx_sub(FX_ONE, r_out_perp.length_squared())))),
        );
        r_out_perp.add(r_out_parallel)
    }

    /// True when every coordinate is below the threshold standing for 1e-8.
    pub fn is_near_zero(&self) -> (r: bool)
        ensures
            r == v_near_zero(self@),
    {
        fx_abs(self.x) < FX_NEAR_ZERO && fx_abs(self.y) < FX_NEAR_ZERO && fx_abs(self.z)
            < FX_NEAR_ZERO
    }

    /// Vector with coordinates drawn uniformly from `[0, 1)`.
    pub fn random(rng: &mut RandomSource) -> (r: Self)
        ensures
            0 <= r@.x < FX_ONE as int,
            0 <= r@.y < FX_ONE as int,
            0 <= r@.z < FX_ONE as int,
    {
        Vector {
            x: rng.next_in_range(0, FX_ONE),
            y: rng.next_in_range(0, FX_ONE),
            z: rng.next_in_range(0, FX_ONE),
        }
    }

    /// Vector with coordinates drawn uniformly from `[lo, hi)`.
    pub fn random_with_range(rng: &mut RandomSource, lo: i64, hi: i64) -> (r: Self)
        requires
            lo < hi,
        ensures
            lo as int <= r@.x < hi as int,
            lo as int <= r@.y < hi as int,
            lo as int <= r@.z < hi as int,
    {
        Vector {
            x: rng.next_in_range(lo, hi),
            y: rng.next_in_range(lo, hi),
            z: rng.next_in_range(lo, hi),
        }
    }

    /// Rejection-sample a point strictly inside the unit ball. The number of
    /// attempts is bounded to keep the loop terminating; after the bound an
    /// interior fallback point is returned (vanishingly unlikely in practice).
    pub fn random_in_unit_sphere(rng: &mut RandomSource) -> (r: Self)
        ensures
            v_length_squared(r@) < FX_ONE as int,
            v_length(r@) < FX_ONE as int,
    {
        let mut tries: u32 = 0;
        while tries < 64
            invariant
                tries <= 64,
            decreases 64 - tries,
        {
            let p = Self::random_with_range(rng, -FX_ONE, FX_ONE);
            if p.length_squared() < FX_ONE {
                proof {
                    lemma_unit_ball_length(p@);
                }
                return p;
            }
            tries = tries + 1;
        }
        let fallback = Vector { x: 2147483648, y: 0, z: 0 };
        proof {
            lemma_half_unit_in_ball();
            lemma_unit_ball_length(fallback@);
        }
        fallback
    }

    /// A unit-length direction: a ball sample, normalized. The length is
    /// checked to be within 42 raw units of one (the bound standing for
    /// 1e-8); a degenerate sample whose normalization strays from that is
    /// replaced by an exact axis unit vector (vanishingly unlikely).
    pub fn random_unit_vector(rng: &mut RandomSource) -> (r: Self)
        ensures
            exists|s: V3| v_length_squared(s) < FX_ONE as int && r@ == v_normalize(s),
            (FX_ONE as int) - 42 <= v_length(r@),
            v_length(r@) <= (FX_ONE as int) + 42,
    {
        let s = Self::random_in_unit_sphere(rng);
        let n = s.normalize();
        let len: i64 = n.length();
        if FX_ONE - 42 <= len && len <= FX_ONE + 42 {
            proof {
                assert(v_length_squared(s@) < FX_ONE as int && n@ == v_normalize(s@));
            }
            return n;
        }
        let fallback = Vector { x: FX_ONE, y: 0, z: 0 };
        proof {
            lemma_axis_unit();
            assert(v_length_squared(V3 { x: 2147483648, y: 0, z: 0 }) < FX_ONE as int
                && fallback@ == v_normalize(V3 { x: 2147483648, y: 0, z: 0 }));
        }
        fallback
    }

    /// A unit direction (up to rounding) in the hemisphere around `normal`:
    /// the drawn unit sample when its product with the normal is positive,
    /// its exact negation otherwise, so the product is never negative. The
    /// coordinate bound on the normal is the saturation-avoidance machine
    /// limit (2^46 raw, about 3e13 scene units) under which negation flips
    /// the fixed-point product exactly.
    pub fn random_in_hemisphere(rng: &mut RandomSource, normal: &Vector) -> (r: Self)
        requires
            abs_i(normal@.x) <= 0x400000000000,
            abs_i(normal@.y) <= 0x400000000000,
            abs_i(normal@.z) <= 0x400000000000,
        ensures
            v_dot(r@, normal@) >= 0,
            exists|s: V3|
                v_length_squared(s) < FX_ONE as int && (r@ == v_normalize(s) || r@ == v_neg(
                    v_normalize(s),
                )),
            (FX_ONE as int) - 42 <= v_length(r@),
            v_length(r@) <= (FX_ONE as int) + 42,
    {
        let in_unit_sphere = Self::random_unit_vector(rng);
        let d: i64 = in_unit_sphere.dot(normal);
        if d > 0 {
            return in_unit_sphere;
        }
        proof {
            lemma_length_bounds_components(in_unit_sphere@);
            lemma_dot_neg_bounded(normal@, in_unit_sphere@);
            lemma_dot_comm(in_unit_sphere@, normal@);
            lemma_dot_comm(v_neg(in_unit_sphere@), normal@);
            lemma_neg_preserves_length(in_unit_sphere@);
        }
        let flipped = in_unit_sphere.neg();
        proof {
            let ghost s0 = choose|s: V3|
                v_length_squared(s) < FX_ONE as int && in_unit_sphere@ == v_normalize(s);
            assert(flipped@ == v_neg(v_normalize(s0)));
        }
        flipped
    }

    /// Rejection-sample a point inside the unit disk in the `z = 0` plane,
    /// with the same bounded-attempt scheme as the ball sampler.
    pub fn random_in_unit_disk(rng: &mut RandomSource) -> (r: Self)
        ensures
            v_length_squared(r@) < FX_ONE as int,
            v_length(r@) < FX_ONE as int,
            r@.z == 0,
    {
        let mut tries: u32 = 0;
        while tries < 64
            invariant
                tries <= 64,
            decreases 64 - tries,
        {
            let p = Vector {
                x: rng.next_in_range(-FX_ONE, FX_ONE),
                y: rng.next_in_range(-FX_ONE, FX_ONE),
                z: 0,
            };
            if p.length_squared() < FX_ONE {
                proof {
                    lemma_unit_ball_length(p@);
                }
                return p;
            }
            tries = tries + 1;
        }
        let fallback = Vector { x: 2147483648, y: 0, z: 0 };
        proof {
            lemma_half_unit_in_ball();
            lemma_unit_ball_length(fallback@);
        }
        fallback
    }
}

} // verus!
