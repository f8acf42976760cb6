//! Gradient-noise generator: 256 random unit gradients, three shuffled
//! permutation tables, and Hermite-smoothed trilinear interpolation.

use crate::fixed::{
    emod, fx_abs, fx_add, fx_add_s, fx_fract, fx_mul, fx_mul_s, fx_of_int, fx_sub, fx_sub_s,
    fx_to_int_floor, abs_i, sat64, tdiv, FX_ONE,
};
use crate::rng::RandomSource;
use crate::trig::FX_HALF;
use crate::vector::{v_dot, Point, Vector, V3};
use vstd::prelude::*;

verus! {

/// Number of gradients and permutation entries.
pub const POINT_COUNT: usize = 256;

#[derive(Clone)]
pub struct Perlin {
    ranvec: Vec<Vector>,
    perm_x: Vec<u32>,
    perm_y: Vec<u32>,
    perm_z: Vec<u32>,
}

/// Mathematical view of the noise state.
#[verifier::ext_equal]
pub ghost struct PerlinV {
    pub ranvec: Seq<V3>,
    pub perm_x: Seq<u32>,
    pub perm_y: Seq<u32>,
    pub perm_z: Seq<u32>,
}

impl View for Perlin {
    type V = PerlinV;

    closed spec fn view(&self) -> PerlinV {
        PerlinV {
            ranvec: self.ranvec@.map_values(|v: Vector| v@),
            perm_x: self.perm_x@,
            perm_y: self.perm_y@,
            perm_z: self.perm_z@,
        }
    }
}

/// A table of length 256 holding each value `0..256` exactly once.
pub open spec fn is_permutation(s: Seq<u32>) -> bool {
    &&& s.len() == 256
    &&& forall|j: int| 0 <= j < 256 ==> s[j] < 256
    &&& forall|v: u32| v < 256 ==> s.contains(v)
}

/// A gradient entry: the normalization of some sample drawn from the cube
/// `[-1, 1)^3`.
#[verifier::opaque]
pub open spec fn is_gradient(g: V3) -> bool {
    exists|s: V3|
        #![auto]
        -(FX_ONE as int) <= s.x && s.x < FX_ONE as int && -(FX_ONE as int) <= s.y && s.y
            < FX_ONE as int && -(FX_ONE as int) <= s.z && s.z < FX_ONE as int && g
            == crate::vector::v_normalize(s)
}

/// Raw bound on one coordinate of a stored gradient: one, plus the few
/// units of slack that truncated normalization can add.
pub const FX_GRAD_BOUND: i64 = 4294967300;

/// A usable gradient: a normalized cube sample whose coordinates stay
/// within the stored bound.
pub open spec fn gradient_bounded(g: V3) -> bool {
    &&& is_gradient(g)
    &&& abs_i(g.x) <= FX_GRAD_BOUND as int
    &&& abs_i(g.y) <= FX_GRAD_BOUND as int
    &&& abs_i(g.z) <= FX_GRAD_BOUND as int
}

impl Perlin {
    /// The state is usable: 256 normalized random gradients, and three full
    /// permutation tables with all hash entries in range.
    pub open spec fn wf(self) -> bool {
        &&& self@.ranvec.len() == 256
        &&& forall|i: int| 0 <= i < 256 ==> gradient_bounded(#[trigger] self@.ranvec[i])
        &&& is_permutation(self@.perm_x)
        &&& is_permutation(self@.perm_y)
        &&& is_permutation(self@.perm_z)
    }

    pub fn new(rng: &mut RandomSource) -> (r: Self)
        ensures
            r.wf(),
    {
        let mut ranvec: Vec<Vector> = Vec::new();
        let mut i: usize = 0;
        while i < POINT_COUNT
            invariant
                ranvec.len() == i,
                i <= 256,
                forall|j: int| 0 <= j < i ==> gradient_bounded(#[trigger] ranvec@[j]@),
            decreases 256 - i,
        {
            let s = Vector::random_with_range(rng, -FX_ONE, FX_ONE);
            let v = s.normalize();
            // a sample whose normalization strays out of the bounded unit
            // box (a degenerate near-zero draw) is replaced by an exact
            // axis gradient; vanishingly unlikely
            let v = if fx_abs(v.x) <= FX_GRAD_BOUND && fx_abs(v.y) <= FX_GRAD_BOUND && fx_abs(v.z)
                <= FX_GRAD_BOUND {
                proof {
                    reveal(is_gradient);
                    assert(is_gradient(v@));
                }
                v
            } else {
                let axis = Vector { x: FX_ONE, y: 0, z: 0 };
                proof {
                    reveal(is_gradient);
                    crate::vector::lemma_axis_unit();
                    assert(axis@ == crate::vector::v_normalize(
                        V3 { x: 2147483648, y: 0, z: 0 },
                    ));
                    assert(is_gradient(axis@));
                }
                axis
            };
            proof {
                assert(gradient_bounded(v@));
            }
            ranvec.push(v);
            i = i + 1;
        }
        let perm_x = Self::perlin_generate_perm(rng);
        let perm_y = Self::perlin_generate_perm(rng);
        let perm_z = Self::perlin_generate_perm(rng);
        let r = Perlin { ranvec, perm_x, perm_y, perm_z };
        proof {
            assert(forall|j: int|
                0 <= j < 256 ==> #[trigger] r@.ranvec[j] == r.ranvec@[j]@);
        }
        r
    }

    /// A freshly shuffled permutation of `0..256`.
    fn perlin_generate_perm(rng: &mut RandomSource) -> (r: Vec<u32>)
        ensures
            is_permutation(r@),
    {
        let mut p: Vec<u32> = Vec::new();
        let mut i: usize = 0;
        while i < POINT_COUNT
            invariant
                p.len() == i,
                i <= 256,
                forall|j: int| 0 <= j < i ==> p@[j] == j as u32,
            decreases 256 - i,
        {
            p.push(i as u32);
            i = i + 1;
        }
        proof {
            assert forall|v: u32| v < 256 implies p@.contains(v) by {
                assert(p@[v as int] == v);
            }
        }
        Self::permute(rng, &mut p);
        p
    }

    /// Fisher-Yates shuffle; the table stays a permutation throughout.
    fn permute(rng: &mut RandomSource, p: &mut Vec<u32>)
        requires
            is_permutation(old(p)@),
        ensures
            is_permutation(final(p)@),
    {
        let mut i: usize = POINT_COUNT;
        while i > 0
            invariant
                i <= 256,
                is_permutation(p@),
            decreases i,
        {
            i = i - 1;
            let target: usize = rng.next_in_range(0, (i as i64) + 1) as usize;
            let ghost before = p@;
            let a: u32 = p[i];
            let b: u32 = p[target];
            p.set(i, b);
            p.set(target, a);
            proof {
                lemma_swap_keeps_permutation(before, p@, i as int, target as int);
            }
        }
    }

    /// A copy holding exactly the same gradients and permutation tables, so
    /// that it yields the same noise field.
    pub fn duplicate(&self) -> (r: Perlin)
        ensures
            r@ == self@,
    {
        let r = Perlin {
            ranvec: crate::util::vec_dup(&self.ranvec),
            perm_x: crate::util::vec_dup(&self.perm_x),
            perm_y: crate::util::vec_dup(&self.perm_y),
            perm_z: crate::util::vec_dup(&self.perm_z),
        };
        proof {
            assert(r@ =~= self@);
        }
        r
    }

    /// The noise value at a point: exact to its specification mirror and the
    /// same on every call with equal state and point.
    pub fn noise(&self, point: &Point) -> (r: i64)
        requires
            self.wf(),
        ensures
            r as int == noise_s(self@, point@),
    {
        proof {
            reveal(noise_s);
        }
        let u: i64 = fx_fract(point.x);
        let v: i64 = fx_fract(point.y);
        let w: i64 = fx_fract(point.z);
        let u: i64 = ease(u);
        let v: i64 = ease(v);
        let w: i64 = ease(w);

        let i: i64 = fx_to_int_floor(point.x);
        let j: i64 = fx_to_int_floor(point.y);
        let k: i64 = fx_to_int_floor(point.z);

        let c000 = self.gradient(i, j, k);
        let c001 = self.gradient(i, j, k + 1);
        let c010 = self.gradient(i, j + 1, k);
        let c011 = self.gradient(i, j + 1, k + 1);
        let c100 = self.gradient(i + 1, j, k);
        let c101 = self.gradient(i + 1, j, k + 1);
        let c110 = self.gradient(i + 1, j + 1, k);
        let c111 = self.gradient(i + 1, j + 1, k + 1);

        let uu: i64 = ease(u);
        let vv: i64 = ease(v);
        let ww: i64 = ease(w);
        let nu: i64 = fx_sub(FX_ONE, uu);
        let nv: i64 = fx_sub(FX_ONE, vv);
        let nw: i64 = fx_sub(FX_ONE, ww);

        let mut accum: i64 = 0;
        accum = fx_add(accum, fx_mul(fx_mul(fx_mul(nu, nv), nw), corner_dot(c000, u, v, w, 0, 0, 0)));
        accum = fx_add(accum, fx_mul(fx_mul(fx_mul(nu, nv), ww), corner_dot(c001, u, v, w, 0, 0, 1)));
        accum = fx_add(accum, fx_mul(fx_mul(fx_mul(nu, vv), nw), corner_dot(c010, u, v, w, 0, 1, 0)));
        accum = fx_add(accum, fx_mul(fx_mul(fx_mul(nu, vv), ww), corner_dot(c011, u, v, w, 0, 1, 1)));
        accum = fx_add(accum, fx_mul(fx_mul(fx_mul(uu, nv), nw), corner_dot(c100, u, v, w, 1, 0, 0)));
        accum = fx_add(accum, fx_mul(fx_mul(fx_mul(uu, nv), ww), corner_dot(c101, u, v, w, 1, 0, 1)));
        accum = fx_add(accum, fx_mul(fx_mul(fx_mul(uu, vv), nw), corner_dot(c110, u, v, w, 1, 1, 0)));
        accum = fx_add(accum, fx_mul(fx_mul(fx_mul(uu, vv), ww), corner_dot(c111, u, v, w, 1, 1, 1)));
        accum
    }

    /// The gradient hashed from the three permutation tables at a lattice
    /// cell.
    fn gradient(&self, i: i64, j: i64, k: i64) -> (g: Vector)
        requires
            self.wf(),
            -0x7000000000000000 < i < 0x7000000000000000,
            -0x7000000000000000 < j < 0x7000000000000000,
            -0x7000000000000000 < k < 0x7000000000000000,
        ensures
            g@ == gradient_s(self@, i as int, j as int, k as int),
    {
        proof {
            reveal(gradient_s);
        }
        let xi: usize = emod(i, 256) as usize;
        let yi: usize = emod(j, 256) as usize;
        let zi: usize = emod(k, 256) as usize;
        let hx: u32 = self.perm_x[xi];
        let hy: u32 = self.perm_y[yi];
        let hz: u32 = self.perm_z[zi];
        let h: u32 = hx ^ hy ^ hz;
        proof {
            assert(h < 256) by (bit_vector)
                requires
                    h == hx ^ hy ^ hz,
                    hx < 256,
                    hy < 256,
                    hz < 256,
            ;
        }
        self.ranvec[h as usize]
    }

    /// Multi-octave turbulence: each octave doubles the frequency and halves
    /// the amplitude (the conventional schedule), and the magnitude of the
    /// sum is returned.
    pub fn turbulence(&self, point: &Point, depth: Option<u32>) -> (r: i64)
        requires
            self.wf(),
        ensures
            r as int == turbulence_s(
                self@,
                point@,
                match depth {
                    Some(d) => d as int,
                    None => 7,
                },
            ),
    {
        let d: u32 = match depth {
            Some(d) => d,
            None => 7,
        };
        let mut accum: i64 = 0;
        let mut temp = *point;
        let mut weight: i64 = FX_ONE;
        let mut oct: u32 = 0;
        while oct < d
            invariant
                self.wf(),
                oct <= d,
                turbulence_acc_s(self@, point@, d as int) == turbulence_acc_rec_s(
                    self@,
                    temp@,
                    weight as int,
                    accum as int,
                    (d - oct) as int,
                ),
            decreases d - oct,
        {
            accum = fx_add(accum, fx_mul(weight, self.noise(&temp)));
            weight = fx_mul(weight, FX_HALF);
            temp = temp.mul(fx_of_int(2));
            oct = oct + 1;
        }
        fx_abs(accum)
    }
}

/// Hermite ease curve `t^2 (3 - 2 t)`.
pub open spec fn ease_s(t: int) -> int {
    fx_mul_s(
        fx_mul_s(t, t),
        fx_sub_s(sat64(3 * (FX_ONE as int)), fx_mul_s(sat64(2 * (FX_ONE as int)), t)),
    )
}

fn ease(t: i64) -> (r: i64)
    ensures
        r as int == ease_s(t as int),
{
    fx_mul(fx_mul(t, t), fx_sub(fx_of_int(3), fx_mul(fx_of_int(2), t)))
}

/// The gradient chosen by XOR-hashing the wrapped lattice coordinates.
#[verifier::opaque]
pub open spec fn gradient_s(pv: PerlinV, i: int, j: int, k: int) -> V3 {
    let hx = pv.perm_x[i % 256];
    let hy = pv.perm_y[j % 256];
    let hz = pv.perm_z[k % 256];
    pv.ranvec[(hx ^ hy ^ hz) as int]
}

/// One interpolation term: the eased-weight product times the gradient
/// dotted with the offset to the corner `(ci, cj, ck)`.
#[verifier::opaque]
pub open spec fn corner_dot_s(g: V3, u: int, v: int, w: int, ci: int, cj: int, ck: int) -> int {
    v_dot(
        g,
        V3 {
            x: fx_sub_s(u, sat64(ci * (FX_ONE as int))),
            y: fx_sub_s(v, sat64(cj * (FX_ONE as int))),
            z: fx_sub_s(w, sat64(ck * (FX_ONE as int))),
        },
    )
}

fn corner_dot(g: Vector, u: i64, v: i64, w: i64, ci: i64, cj: i64, ck: i64) -> (r: i64)
    ensures
        r as int == corner_dot_s(g@, u as int, v as int, w as int, ci as int, cj as int, ck as int),
{
    proof {
        reveal(corner_dot_s);
    }
    let offset = Vector {
        x: fx_sub(u, fx_of_int(ci)),
        y: fx_sub(v, fx_of_int(cj)),
        z: fx_sub(w, fx_of_int(ck)),
    };
    g.dot(&offset)
}

/// Full noise mirror: fractional offsets eased once, lattice gradients
/// fetched, then interpolated with the ease applied a second time, exactly
/// as the executable code computes it.
#[verifier::opaque]
pub open spec fn noise_s(pv: PerlinV, p: V3) -> int {
    let u = ease_s(p.x % (FX_ONE as int));
    let v = ease_s(p.y % (FX_ONE as int));
    let w = ease_s(p.z % (FX_ONE as int));
    let i = p.x / (FX_ONE as int);
    let j = p.y / (FX_ONE as int);
    let k = p.z / (FX_ONE as int);
    let uu = ease_s(u);
    let vv = ease_s(v);
    let ww = ease_s(w);
    let nu = fx_sub_s(FX_ONE as int, uu);
    let nv = fx_sub_s(FX_ONE as int, vv);
    let nw = fx_sub_s(FX_ONE as int, ww);
    let a0 = fx_add_s(
        0,
        fx_mul_s(fx_mul_s(fx_mul_s(nu, nv), nw), corner_dot_s(gradient_s(pv, i, j, k), u, v, w, 0, 0, 0)),
    );
    let a1 = fx_add_s(
        a0,
        fx_mul_s(
            fx_mul_s(fx_mul_s(nu, nv), ww),
            corner_dot_s(gradient_s(pv, i, j, k + 1), u, v, w, 0, 0, 1),
        ),
    );
    let a2 = fx_add_s(
        a1,
        fx_mul_s(
            fx_mul_s(fx_mul_s(nu, vv), nw),
            corner_dot_s(gradient_s(pv, i, j + 1, k), u, v, w, 0, 1, 0),
        ),
    );
    let a3 = fx_add_s(
        a2,
        fx_mul_s(
            fx_mul_s(fx_mul_s(nu, vv), ww),
            corner_dot_s(gradient_s(pv, i, j + 1, k + 1), u, v, w, 0, 1, 1),
        ),
    );
    let a4 = fx_add_s(
        a3,
        fx_mul_s(
            fx_mul_s(fx_mul_s(uu, nv), nw),
            corner_dot_s(gradient_s(pv, i + 1, j, k), u, v, w, 1, 0, 0),
        ),
    );
    let a5 = fx_add_s(
        a4,
        fx_mul_s(
            fx_mul_s(fx_mul_s(uu, nv), ww),
            corner_dot_s(gradient_s(pv, i + 1, j, k + 1), u, v, w, 1, 0, 1),
        ),
    );
    let a6 = fx_add_s(
        a5,
        fx_mul_s(
            fx_mul_s(fx_mul_s(uu, vv), nw),
            corner_dot_s(gradient_s(pv, i + 1, j + 1, k), u, v, w, 1, 1, 0),
        ),
    );
    fx_add_s(
        a6,
        fx_mul_s(
            fx_mul_s(fx_mul_s(uu, vv), ww),
            corner_dot_s(gradient_s(pv, i + 1, j + 1, k + 1), u, v, w, 1, 1, 1),
        ),
    )
}

/// Tail-recursive octave accumulation matching the turbulence loop.
pub open spec fn turbulence_acc_rec_s(pv: PerlinV, p: V3, weight: int, acc: int, left: int) -> int
    decreases left,
{
    if left <= 0 {
        acc
    } else {
        turbulence_acc_rec_s(
            pv,
            crate::vector::v_scale(p, sat64(2 * (FX_ONE as int))),
            fx_mul_s(weight, FX_HALF as int),
            fx_add_s(acc, fx_mul_s(weight, noise_s(pv, p))),
            left - 1,
        )
    }
}

pub open spec fn turbulence_acc_s(pv: PerlinV, p: V3, depth: int) -> int {
    turbulence_acc_rec_s(pv, p, FX_ONE as int, 0, depth)
}

/// Turbulence: the magnitude of the accumulated octaves.
pub open spec fn turbulence_s(pv: PerlinV, p: V3, depth: int) -> int {
    sat64(abs_i(turbulence_acc_s(pv, p, depth)))
}

proof fn lemma_tdiv_nonneg(x: int, b: int)
    requires
        x >= 0,
        b > 0,
    ensures
        0 <= tdiv(x, b),
        tdiv(x, b) == x / b,
{
    vstd::arithmetic::div_mod::lemma_div_pos_is_pos(x, b);
}

/// A product of two factors from `[0, 1]` stays in `[0, 1]`, and its
/// truncation loses at most the fractional part: scaled back up it is at
/// most the exact product.
proof fn lemma_unit_mul_floor(a: int, b: int)
    requires
        0 <= a <= FX_ONE as int,
        0 <= b <= FX_ONE as int,
    ensures
        0 <= fx_mul_s(a, b) <= FX_ONE as int,
        fx_mul_s(a, b) * (FX_ONE as int) <= a * b,
{
    let s = FX_ONE as int;
    assert(0 <= a * b && a * b <= s * s) by (nonlinear_arith)
        requires
            0 <= a <= s,
            0 <= b <= s,
    ;
    lemma_tdiv_nonneg(a * b, s);
    vstd::arithmetic::div_mod::lemma_div_is_ordered(a * b, s * s, s);
    vstd::arithmetic::div_mod::lemma_div_multiples_vanish(s, s);
    vstd::arithmetic::div_mod::lemma_fundamental_div_mod(a * b, s);
    assert(((a * b) / s) * s == s * ((a * b) / s)) by (nonlinear_arith);
}

/// Scaling a bounded value by a factor from `[0, 1]` keeps the bound, and
/// the scaled-up magnitude is at most the factor times the bound.
proof fn lemma_term_floor(w: int, c: int, m: int)
    requires
        0 <= w <= FX_ONE as int,
        abs_i(c) <= m,
        0 <= m <= 103079215200,
    ensures
        abs_i(fx_mul_s(w, c)) <= m,
        abs_i(fx_mul_s(w, c)) * (FX_ONE as int) <= w * m,
{
    let s = FX_ONE as int;
    assert(abs_i(w * c) <= w * m && w * m <= s * m) by (nonlinear_arith)
        requires
            0 <= w <= s,
            abs_i(c) <= m,
            0 <= m,
    ;
    crate::fixed::lemma_tdiv_mag(w * c, s);
    vstd::arithmetic::div_mod::lemma_div_is_ordered(abs_i(w * c), s * m, s);
    vstd::arithmetic::div_mod::lemma_div_multiples_vanish(m, s);
    vstd::arithmetic::div_mod::lemma_fundamental_div_mod(abs_i(w * c), s);
    assert((abs_i(w * c) / s) * s == s * (abs_i(w * c) / s)) by (nonlinear_arith);
}

/// The Hermite ease curve maps `[0, 1]` into `[0, 1]`.
proof fn lemma_ease_range(t: int)
    requires
        0 <= t <= FX_ONE as int,
    ensures
        0 <= ease_s(t) <= FX_ONE as int,
{
    let s = FX_ONE as int;
    let m1 = fx_mul_s(t, t);
    assert(0 <= t * t && t * t <= s * s) by (nonlinear_arith)
        requires
            0 <= t <= s,
    ;
    lemma_tdiv_nonneg(t * t, s);
    vstd::arithmetic::div_mod::lemma_div_is_ordered(t * t, s * s, s);
    vstd::arithmetic::div_mod::lemma_div_multiples_vanish(s, s);
    assert(0 <= m1 <= s);
    vstd::arithmetic::div_mod::lemma_fundamental_div_mod(t * t, s);
    assert(m1 * s <= t * t);
    // the doubled argument computes exactly
    assert(sat64(2 * s) == 2 * s);
    assert((2 * t) * s == (2 * s) * t && 0 <= (2 * s) * t) by (nonlinear_arith)
        requires
            0 <= t,
            s > 0,
    ;
    lemma_tdiv_nonneg((2 * s) * t, s);
    vstd::arithmetic::div_mod::lemma_div_multiples_vanish(2 * t, s);
    assert((s * (2 * t)) == (2 * s) * t) by (nonlinear_arith);
    assert(fx_mul_s(sat64(2 * s), t) == 2 * t);
    let c3 = fx_sub_s(sat64(3 * s), fx_mul_s(sat64(2 * s), t));
    assert(c3 == 3 * s - 2 * t);
    assert(s <= c3 <= 3 * s);
    // the cubic bound: t^2 (3 - 2t) <= 1 on [0, 1]
    assert(s * s * s - 3 * (t * t) * s + 2 * ((t * t) * t) == ((s - t) * (s - t)) * (s + 2 * t))
        by (nonlinear_arith);
    assert(((s - t) * (s - t)) * (s + 2 * t) >= 0) by (nonlinear_arith)
        requires
            0 <= t <= s,
    ;
    assert((t * t) * c3 <= s * s * s) by (nonlinear_arith)
        requires
            c3 == 3 * s - 2 * t,
            s * s * s - 3 * (t * t) * s + 2 * ((t * t) * t) >= 0,
    ;
    assert(0 <= m1 * c3 && (m1 * c3) * s <= (t * t) * c3) by (nonlinear_arith)
        requires
            0 <= m1,
            0 <= c3,
            m1 * s <= t * t,
    ;
    assert(m1 * c3 <= s * s) by (nonlinear_arith)
        requires
            (m1 * c3) * s <= s * s * s,
            s > 0,
    ;
    lemma_tdiv_nonneg(m1 * c3, s);
    vstd::arithmetic::div_mod::lemma_div_is_ordered(m1 * c3, s * s, s);
    vstd::arithmetic::div_mod::lemma_div_multiples_vanish(s, s);
}

/// A product of a gradient coordinate and a unit-box offset keeps the
/// gradient bound.
proof fn lemma_fx_mul_grad(a: int, b: int)
    requires
        abs_i(a) <= FX_GRAD_BOUND as int,
        abs_i(b) <= FX_ONE as int,
    ensures
        abs_i(fx_mul_s(a, b)) <= FX_GRAD_BOUND as int,
{
    let s = FX_ONE as int;
    let g = FX_GRAD_BOUND as int;
    assert(abs_i(a * b) <= g * s) by (nonlinear_arith)
        requires
            abs_i(a) <= g,
            abs_i(b) <= s,
    ;
    crate::fixed::lemma_tdiv_mag(a * b, s);
    vstd::arithmetic::div_mod::lemma_div_is_ordered(abs_i(a * b), g * s, s);
    assert(g * s == s * g) by (nonlinear_arith);
    vstd::arithmetic::div_mod::lemma_div_multiples_vanish(g, s);
}

/// One interpolation corner term is bounded by three gradient bounds.
proof fn lemma_corner_dot_bound(g: V3, u: int, v: int, w: int, ci: int, cj: int, ck: int)
    requires
        abs_i(g.x) <= FX_GRAD_BOUND as int,
        abs_i(g.y) <= FX_GRAD_BOUND as int,
        abs_i(g.z) <= FX_GRAD_BOUND as int,
        0 <= u <= FX_ONE as int,
        0 <= v <= FX_ONE as int,
        0 <= w <= FX_ONE as int,
        ci == 0 || ci == 1,
        cj == 0 || cj == 1,
        ck == 0 || ck == 1,
    ensures
        abs_i(corner_dot_s(g, u, v, w, ci, cj, ck)) <= 3 * (FX_GRAD_BOUND as int),
{
    reveal(corner_dot_s);
    let s = FX_ONE as int;
    let ox = fx_sub_s(u, sat64(ci * s));
    let oy = fx_sub_s(v, sat64(cj * s));
    let oz = fx_sub_s(w, sat64(ck * s));
    assert(abs_i(ox) <= s && abs_i(oy) <= s && abs_i(oz) <= s);
    lemma_fx_mul_grad(g.x, ox);
    lemma_fx_mul_grad(g.y, oy);
    lemma_fx_mul_grad(g.z, oz);
}

/// The noise value is bounded: at most three gradient bounds in magnitude.
/// The trilinear weights, which sum to at most one even under truncation,
/// damp the corner terms; each corner term is bounded coordinatewise by
/// three gradient bounds (the componentwise stand-in for the Euclidean
/// corner bound).
#[verifier::rlimit(100)]
pub proof fn lemma_noise_bounded(pv: PerlinV, p: V3)
    requires
        pv.ranvec.len() == 256,
        forall|i: int| 0 <= i < 256 ==> gradient_bounded(#[trigger] pv.ranvec[i]),
        is_permutation(pv.perm_x),
        is_permutation(pv.perm_y),
        is_permutation(pv.perm_z),
    ensures
        abs_i(noise_s(pv, p)) <= 3 * (FX_GRAD_BOUND as int),
{
    reveal(noise_s);
    let s = FX_ONE as int;
    let cb = 3 * (FX_GRAD_BOUND as int);
    vstd::arithmetic::div_mod::lemma_mod_bound(p.x, s);
    vstd::arithmetic::div_mod::lemma_mod_bound(p.y, s);
    vstd::arithmetic::div_mod::lemma_mod_bound(p.z, s);
    let u = ease_s(p.x % s);
    let v = ease_s(p.y % s);
    let w = ease_s(p.z % s);
    lemma_ease_range(p.x % s);
    lemma_ease_range(p.y % s);
    lemma_ease_range(p.z % s);
    lemma_ease_range(u);
    lemma_ease_range(v);
    lemma_ease_range(w);
    let uu = ease_s(u);
    let vv = ease_s(v);
    let ww = ease_s(w);
    let nu = fx_sub_s(s, uu);
    let nv = fx_sub_s(s, vv);
    let nw = fx_sub_s(s, ww);
    assert(0 <= nu <= s && 0 <= nv <= s && 0 <= nw <= s);
    assert(nu + uu == s && nv + vv == s && nw + ww == s);
    let i = p.x / s;
    let j = p.y / s;
    let k = p.z / s;
    lemma_gradient_bounded(pv, i, j, k);
    lemma_corner_dot_bound(gradient_s(pv, i, j, k), u, v, w, 0, 0, 0);
    lemma_gradient_bounded(pv, i, j, k + 1);
    lemma_corner_dot_bound(gradient_s(pv, i, j, k + 1), u, v, w, 0, 0, 1);
    lemma_gradient_bounded(pv, i, j + 1, k);
    lemma_corner_dot_bound(gradient_s(pv, i, j + 1, k), u, v, w, 0, 1, 0);
    lemma_gradient_bounded(pv, i, j + 1, k + 1);
    lemma_corner_dot_bound(gradient_s(pv, i, j + 1, k + 1), u, v, w, 0, 1, 1);
    lemma_gradient_bounded(pv, i + 1, j, k);
    lemma_corner_dot_bound(gradient_s(pv, i + 1, j, k), u, v, w, 1, 0, 0);
    lemma_gradient_bounded(pv, i + 1, j, k + 1);
    lemma_corner_dot_bound(gradient_s(pv, i + 1, j, k + 1), u, v, w, 1, 0, 1);
    lemma_gradient_bounded(pv, i + 1, j + 1, k);
    lemma_corner_dot_bound(gradient_s(pv, i + 1, j + 1, k), u, v, w, 1, 1, 0);
    lemma_gradient_bounded(pv, i + 1, j + 1, k + 1);
    lemma_corner_dot_bound(gradient_s(pv, i + 1, j + 1, k + 1), u, v, w, 1, 1, 1);

    // the four pair weights sum to at most one
    let q0 = fx_mul_s(nu, nv);
    let q1 = fx_mul_s(nu, vv);
    let q2 = fx_mul_s(uu, nv);
    let q3 = fx_mul_s(uu, vv);
    lemma_unit_mul_floor(nu, nv);
    lemma_unit_mul_floor(nu, vv);
    lemma_unit_mul_floor(uu, nv);
    lemma_unit_mul_floor(uu, vv);
    assert((q0 + q1 + q2 + q3) * s <= s * s) by (nonlinear_arith)
        requires
            q0 * s <= nu * nv,
            q1 * s <= nu * vv,
            q2 * s <= uu * nv,
            q3 * s <= uu * vv,
            nu + uu == s,
            nv + vv == s,
            0 <= nu,
            0 <= uu,
            0 <= nv,
            0 <= vv,
    ;
    assert(q0 + q1 + q2 + q3 <= s) by (nonlinear_arith)
        requires
            (q0 + q1 + q2 + q3) * s <= s * s,
            s > 0,
    ;

    // so do the eight triple weights
    let w0 = fx_mul_s(q0, nw);
    let w1 = fx_mul_s(q0, ww);
    let w2 = fx_mul_s(q1, nw);
    let w3 = fx_mul_s(q1, ww);
    let w4 = fx_mul_s(q2, nw);
    let w5 = fx_mul_s(q2, ww);
    let w6 = fx_mul_s(q3, nw);
    let w7 = fx_mul_s(q3, ww);
    lemma_unit_mul_floor(q0, nw);
    lemma_unit_mul_floor(q0, ww);
    lemma_unit_mul_floor(q1, nw);
    lemma_unit_mul_floor(q1, ww);
    lemma_unit_mul_floor(q2, nw);
    lemma_unit_mul_floor(q2, ww);
    lemma_unit_mul_floor(q3, nw);
    lemma_unit_mul_floor(q3, ww);
    lemma_pair_weights(w0, w1, q0, nw, ww, s);
    lemma_pair_weights(w2, w3, q1, nw, ww, s);
    lemma_pair_weights(w4, w5, q2, nw, ww, s);
    lemma_pair_weights(w6, w7, q3, nw, ww, s);
    assert(w0 + w1 + w2 + w3 + w4 + w5 + w6 + w7 <= s);

    // weighted corner terms: damped individually and in total
    let c0 = corner_dot_s(gradient_s(pv, i, j, k), u, v, w, 0, 0, 0);
    let c1 = corner_dot_s(gradient_s(pv, i, j, k + 1), u, v, w, 0, 0, 1);
    let c2 = corner_dot_s(gradient_s(pv, i, j + 1, k), u, v, w, 0, 1, 0);
    let c3 = corner_dot_s(gradient_s(pv, i, j + 1, k + 1), u, v, w, 0, 1, 1);
    let c4 = corner_dot_s(gradient_s(pv, i + 1, j, k), u, v, w, 1, 0, 0);
    let c5 = corner_dot_s(gradient_s(pv, i + 1, j, k + 1), u, v, w, 1, 0, 1);
    let c6 = corner_dot_s(gradient_s(pv, i + 1, j + 1, k), u, v, w, 1, 1, 0);
    let c7 = corner_dot_s(gradient_s(pv, i + 1, j + 1, k + 1), u, v, w, 1, 1, 1);
    lemma_term_floor(w0, c0, cb);
    lemma_term_floor(w1, c1, cb);
    lemma_term_floor(w2, c2, cb);
    lemma_term_floor(w3, c3, cb);
    lemma_term_floor(w4, c4, cb);
    lemma_term_floor(w5, c5, cb);
    lemma_term_floor(w6, c6, cb);
    lemma_term_floor(w7, c7, cb);
    let t0 = fx_mul_s(w0, c0);
    let t1 = fx_mul_s(w1, c1);
    let t2 = fx_mul_s(w2, c2);
    let t3 = fx_mul_s(w3, c3);
    let t4 = fx_mul_s(w4, c4);
    let t5 = fx_mul_s(w5, c5);
    let t6 = fx_mul_s(w6, c6);
    let t7 = fx_mul_s(w7, c7);
    let tsum = abs_i(t0) + abs_i(t1) + abs_i(t2) + abs_i(t3) + abs_i(t4) + abs_i(t5) + abs_i(t6)
        + abs_i(t7);
    assert(tsum * s <= (w0 + w1 + w2 + w3 + w4 + w5 + w6 + w7) * cb) by (nonlinear_arith)
        requires
            abs_i(t0) * s <= w0 * cb,
            abs_i(t1) * s <= w1 * cb,
            abs_i(t2) * s <= w2 * cb,
            abs_i(t3) * s <= w3 * cb,
            abs_i(t4) * s <= w4 * cb,
            abs_i(t5) * s <= w5 * cb,
            abs_i(t6) * s <= w6 * cb,
            abs_i(t7) * s <= w7 * cb,
            tsum == abs_i(t0) + abs_i(t1) + abs_i(t2) + abs_i(t3) + abs_i(t4) + abs_i(t5) + abs_i(
                t6,
            ) + abs_i(t7),
    ;
    assert((w0 + w1 + w2 + w3 + w4 + w5 + w6 + w7) * cb <= s * cb) by (nonlinear_arith)
        requires
            w0 + w1 + w2 + w3 + w4 + w5 + w6 + w7 <= s,
            cb >= 0,
    ;
    assert(tsum <= cb) by (nonlinear_arith)
        requires
            tsum * s <= s * cb,
            s > 0,
    ;

    // the saturating accumulation never leaves the damped range
    let a0 = fx_add_s(0, t0);
    let a1 = fx_add_s(a0, t1);
    let a2 = fx_add_s(a1, t2);
    let a3 = fx_add_s(a2, t3);
    let a4 = fx_add_s(a3, t4);
    let a5 = fx_add_s(a4, t5);
    let a6 = fx_add_s(a5, t6);
    assert(abs_i(a0) <= abs_i(t0));
    assert(abs_i(a1) <= abs_i(t0) + abs_i(t1));
    assert(abs_i(a2) <= abs_i(t0) + abs_i(t1) + abs_i(t2));
    assert(abs_i(a3) <= abs_i(t0) + abs_i(t1) + abs_i(t2) + abs_i(t3));
    assert(abs_i(a4) <= abs_i(t0) + abs_i(t1) + abs_i(t2) + abs_i(t3) + abs_i(t4));
    assert(abs_i(a5) <= abs_i(t0) + abs_i(t1) + abs_i(t2) + abs_i(t3) + abs_i(t4) + abs_i(t5));
    assert(abs_i(a6) <= abs_i(t0) + abs_i(t1) + abs_i(t2) + abs_i(t3) + abs_i(t4) + abs_i(t5)
        + abs_i(t6));
    assert(abs_i(fx_add_s(a6, t7)) <= tsum);
}

/// Two triple weights sharing a pair weight sum to at most that pair
/// weight.
proof fn lemma_pair_weights(wa: int, wb: int, q: int, nw: int, ww: int, s: int)
    requires
        s == FX_ONE as int,
        wa * s <= q * nw,
        wb * s <= q * ww,
        nw + ww == s,
        0 <= q,
    ensures
        wa + wb <= q,
{
    assert((wa + wb) * s <= q * s) by (nonlinear_arith)
        requires
            wa * s <= q * nw,
            wb * s <= q * ww,
            nw + ww == s,
            0 <= q,
    ;
    assert(wa + wb <= q) by (nonlinear_arith)
        requires
            (wa + wb) * s <= q * s,
            s > 0,
    ;
}


/// Every hashed gradient satisfies the stored bounds.
proof fn lemma_gradient_bounded(pv: PerlinV, i: int, j: int, k: int)
    requires
        pv.ranvec.len() == 256,
        forall|t: int| 0 <= t < 256 ==> gradient_bounded(#[trigger] pv.ranvec[t]),
        is_permutation(pv.perm_x),
        is_permutation(pv.perm_y),
        is_permutation(pv.perm_z),
    ensures
        gradient_bounded(gradient_s(pv, i, j, k)),
{
    reveal(gradient_s);
    vstd::arithmetic::div_mod::lemma_mod_bound(i, 256);
    vstd::arithmetic::div_mod::lemma_mod_bound(j, 256);
    vstd::arithmetic::div_mod::lemma_mod_bound(k, 256);
    let hx = pv.perm_x[i % 256];
    let hy = pv.perm_y[j % 256];
    let hz = pv.perm_z[k % 256];
    assert(hx < 256 && hy < 256 && hz < 256);
    assert((hx ^ hy ^ hz) < 256) by (bit_vector)
        requires
            hx < 256,
            hy < 256,
            hz < 256,
    ;
}

/// Gradient noise is deterministic: it is a function of the gradient and
/// permutation tables and the query point alone, so equal states and equal
/// points always yield the same value.
pub proof fn lemma_noise_deterministic(a: PerlinV, b: PerlinV, p: V3, q: V3)
    requires
        a == b,
        p == q,
    ensures
        noise_s(a, p) == noise_s(b, q),
{
}

proof fn lemma_swap_keeps_permutation(s: Seq<u32>, s2: Seq<u32>, i: int, t: int)
    requires
        is_permutation(s),
        0 <= i < 256,
        0 <= t < 256,
        s2 == s.update(i, s[t]).update(t, s[i]),
    ensures
        is_permutation(s2),
{
    assert(s2.len() == 256);
    assert forall|j: int| 0 <= j < 256 implies s2[j] < 256 by {
        if j == t {
            assert(s2[j] == s[i]);
        } else if j == i {
            assert(s2[j] == s[t]);
        } else {
            assert(s2[j] == s[j]);
        }
    }
    assert forall|v: u32| v < 256 implies s2.contains(v) by {
        assert(s.contains(v));
        let w = choose|w: int| 0 <= w < s.len() && s[w] == v;
        if w == i {
            assert(s2[t] == v);
        } else if w == t {
            assert(s2[i] == v);
        } else {
            assert(s2[w] == v);
        }
    }
}

} // verus!
