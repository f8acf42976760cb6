//! Geometric primitives, ray-object intersection and the aggregate scene
//! object.

use crate::fixed::{
    abs_i, fx_abs, fx_add, fx_add_s, fx_clamp, fx_clamp_s, fx_div, fx_div_s, fx_max, fx_max_s,
    fx_min, fx_min_s, fx_mul, fx_mul_s, fx_neg, fx_neg_s, fx_sqrt, fx_sqrt_s, fx_sub, fx_sub_s,
    sat64, tdiv, FX_NEAR_ZERO, FX_ONE,
};
use crate::material::{Deflect, Emit, Material};
use crate::quaternion::{q_rotate_point, Quaternion};
use crate::ray::{ray_at_s, Ray};
use crate::trig::{asin_fx, asin_s, atan2_fx, atan2_s, FX_HALF_PI, FX_PI, FX_TAU};
use crate::vector::{
    v_add, v_cross, v_div, v_dot, v_length_squared, v_neg, v_normalize, v_sub, Point, Vector, V3,
};
use vstd::prelude::*;

verus! {

/// Which side of the surface the ray meets: `Inward` when the ray direction
/// opposes the geometric normal (an outside-in crossing), `Outward`
/// otherwise.
#[derive(Debug, Clone, Copy, PartialEq, Eq, Structural)]
pub enum Facing {
    Inward,
    Outward,
}

/// A ray-surface intersection record. The material is borrowed from the
/// scene object that produced the hit.
pub struct Collision<'a> {
    pub point: Point,
    pub normal: Vector,
    pub t: i64,
    pub u: i64,
    pub v: i64,
    pub facing: Facing,
    pub material: &'a Material,
}

/// Mathematical content of a collision, with the material held by value.
pub ghost struct HitRec {
    pub point: V3,
    pub normal: V3,
    pub t: int,
    pub u: int,
    pub v: int,
    pub facing: Facing,
    pub material: Material,
}

/// The executable record carries exactly the mathematical one.
pub open spec fn collision_matches(c: Collision, h: HitRec) -> bool {
    &&& c.point@ == h.point
    &&& c.normal@ == h.normal
    &&& c.t as int == h.t
    &&& c.u as int == h.u
    &&& c.v as int == h.v
    &&& c.facing == h.facing
    &&& *c.material == h.material
}

/// The facing rule: a negative direction-normal product keeps the normal and
/// faces `Inward`; otherwise the normal is negated and the facing is
/// `Outward`.
pub open spec fn set_facing_s(direction: V3, normal: V3) -> (V3, Facing) {
    if v_dot(direction, normal) < 0 {
        (normal, Facing::Inward)
    } else {
        (v_neg(normal), Facing::Outward)
    }
}

/// The facing rule, stated on its own: when the ray direction and the
/// geometric normal have a negative product the surface is met from the
/// front (`Inward`) and the normal is kept unchanged; otherwise the surface
/// is met from behind (`Outward`) and the stored normal is the negation, so
/// that it always opposes the incoming ray.
pub proof fn lemma_facing_rule(direction: V3, normal: V3)
    ensures
        v_dot(direction, normal) < 0 ==> set_facing_s(direction, normal) == (
            normal,
            Facing::Inward,
        ),
        v_dot(direction, normal) >= 0 ==> set_facing_s(direction, normal) == (
            v_neg(normal),
            Facing::Outward,
        ),
{
}

/// The stored normal always opposes the incoming ray: its product with the
/// direction is never positive. Stated under coordinate bounds (magnitudes
/// at most 2^46 raw) that keep every product and sum of the fixed-point dot
/// computation away from saturation; scene geometry sits far inside them.
pub proof fn lemma_set_facing_opposes(d: V3, n: V3)
    requires
        abs_i(d.x) <= 0x400000000000,
        abs_i(d.y) <= 0x400000000000,
        abs_i(d.z) <= 0x400000000000,
        abs_i(n.x) <= 0x400000000000,
        abs_i(n.y) <= 0x400000000000,
        abs_i(n.z) <= 0x400000000000,
    ensures
        v_dot(d, set_facing_s(d, n).0) <= 0,
{
    if v_dot(d, n) >= 0 {
        crate::vector::lemma_dot_neg_bounded(d, n);
    }
}

/// Orient a geometric normal against the incoming ray.
pub fn set_facing(ray: &Ray, normal: Vector) -> (r: (Vector, Facing))
    ensures
        (r.0@, r.1) == set_facing_s(ray.direction@, normal@),
{
    if ray.direction.dot(&normal) < 0 {
        (normal, Facing::Inward)
    } else {
        (normal.neg(), Facing::Outward)
    }
}

/// Ray intersection over the interval `[t_min, t_max)`.
pub trait Hit {
    /// Internal consistency the intersection test relies on.
    spec fn hit_wf(&self) -> bool;

    /// The exact outcome of the intersection test.
    spec fn hit_spec(&self, ray: Ray, t_min: int, t_max: int) -> Option<HitRec>;

    fn hit<'a>(&'a self, ray: &Ray, t_min: i64, t_max: i64) -> (r: Option<Collision<'a>>)
        requires
            self.hit_wf(),
        ensures
            match (r, self.hit_spec(*ray, t_min as int, t_max as int)) {
                (Some(c), Some(h)) => collision_matches(c, h),
                (None, None) => true,
                _ => false,
            },
    ;
}

pub struct Sphere {
    pub center: Point,
    pub radius: i64,
    pub material: Material,
}

/// Spherical-coordinate surface parameters of a point on the sphere,
/// clamped into the unit square as surface coordinates are promised to be.
pub open spec fn sphere_uv_s(center: V3, radius: int, point: V3) -> (int, int) {
    let p = v_div(v_sub(point, center), radius);
    let phi = atan2_s(p.z, p.x);
    let theta = asin_s(p.y);
    let u = fx_sub_s(FX_ONE as int, fx_div_s(fx_add_s(phi, FX_PI as int), FX_TAU as int));
    let v = fx_div_s(fx_add_s(theta, FX_HALF_PI as int), FX_PI as int);
    (fx_clamp_s(u, 0, FX_ONE as int), fx_clamp_s(v, 0, FX_ONE as int))
}

/// Quadratic ray-sphere intersection: the nearer admissible root wins, the
/// farther one is the fallback, and no admissible root means no hit.
pub open spec fn sphere_hit_s(
    center: V3,
    radius: int,
    material: Material,
    ray: Ray,
    t_min: int,
    t_max: int,
) -> Option<HitRec> {
    let oc = v_sub(ray.origin@, center);
    let a = v_length_squared(ray.direction@);
    let half_b = v_dot(oc, ray.direction@);
    let c = fx_sub_s(v_length_squared(oc), fx_mul_s(radius, radius));
    let discriminant = fx_sub_s(fx_mul_s(half_b, half_b), fx_mul_s(a, c));
    if discriminant < 0 {
        None
    } else {
        let sqrt_d = fx_sqrt_s(discriminant);
        let root1 = fx_div_s(fx_sub_s(fx_neg_s(half_b), sqrt_d), a);
        let root2 = fx_div_s(fx_add_s(fx_neg_s(half_b), sqrt_d), a);
        let root = if t_min <= root1 && root1 < t_max {
            root1
        } else {
            root2
        };
        if !(t_min <= root && root < t_max) {
            None
        } else {
            let point = ray_at_s(ray.origin@, ray.direction@, root);
            let normal0 = v_div(v_sub(point, center), radius);
            let nf = set_facing_s(ray.direction@, normal0);
            let uv = sphere_uv_s(center, radius, point);
            Some(
                HitRec {
                    point,
                    normal: nf.0,
                    t: root,
                    u: uv.0,
                    v: uv.1,
                    facing: nf.1,
                    material,
                },
            )
        }
    }
}

impl Sphere {
    fn uv(&self, point: &Point) -> (r: (i64, i64))
        ensures
            (r.0 as int, r.1 as int) == sphere_uv_s(self.center@, self.radius as int, point@),
    {
        let p = point.sub(self.center).div(self.radius);
        let phi: i64 = atan2_fx(p.z, p.x);
        let theta: i64 = asin_fx(p.y);
        let u: i64 = fx_sub(FX_ONE, fx_div(fx_add(phi, FX_PI), FX_TAU));
        let v: i64 = fx_div(fx_add(theta, FX_HALF_PI), FX_PI);
        (fx_clamp(u, 0, FX_ONE), fx_clamp(v, 0, FX_ONE))
    }
}

impl Hit for Sphere {
    open spec fn hit_wf(&self) -> bool {
        true
    }

    open spec fn hit_spec(&self, ray: Ray, t_min: int, t_max: int) -> Option<HitRec> {
        sphere_hit_s(self.center@, self.radius as int, self.material, ray, t_min, t_max)
    }

    fn hit<'a>(&'a self, ray: &Ray, t_min: i64, t_max: i64) -> (r: Option<Collision<'a>>)
        ensures
            r matches Some(c) ==> 0 <= c.u && c.u <= FX_ONE && 0 <= c.v && c.v <= FX_ONE,
    {
        let oc = ray.origin.sub(self.center);
        let a: i64 = ray.direction.length_squared();
        let half_b: i64 = oc.dot(&ray.direction);
        let c: i64 = fx_sub(oc.length_squared(), fx_mul(self.radius, self.radius));
        let discriminant: i64 = fx_sub(fx_mul(half_b, half_b), fx_mul(a, c));

        if discriminant < 0 {
            return None;
        }

        let sqrt_d: i64 = fx_sqrt(discriminant);
        let mut root: i64 = fx_div(fx_sub(fx_neg(half_b), sqrt_d), a);
        if !(t_min <= root && root < t_max) {
            root = fx_div(fx_add(fx_neg(half_b), sqrt_d), a);
            if !(t_min <= root && root < t_max) {
                return None;
            }
        }

        let t: i64 = root;
        let point = ray.at(t);
        let normal = point.sub(self.center).div(self.radius);
        let (normal, facing) = set_facing(ray, normal);
        let (u, v) = self.uv(&point);

        Some(Collision { point, normal, t, u, v, facing, material: &self.material })
    }
}

pub struct Quad {
    pub q: Point,
    pub u: Vector,
    pub v: Vector,
    pub normal: Vector,
    pub d: i64,
    pub w: Vector,
    pub material: Material,
}

/// The derived plane data of a quad agrees with its corner and edges.
#[verifier::opaque]
pub open spec fn quad_derived_ok(qd: Quad) -> bool {
    let n = v_cross(qd.u@, qd.v@);
    &&& qd.normal@ == v_normalize(n)
    &&& qd.d as int == v_dot(v_normalize(n), qd.q@)
    &&& qd.w@ == v_div(n, v_length_squared(n))
}

/// Ray-plane intersection followed by the parallelogram interior test: a
/// near-parallel ray, a parameter outside `[t_min, t_max)`, or planar
/// coordinates outside `[0, 1]` all mean no hit.
pub open spec fn quad_hit_s(qd: Quad, ray: Ray, t_min: int, t_max: int) -> Option<HitRec> {
    let denominator = v_dot(qd.normal@, ray.direction@);
    if sat64(abs_i(denominator)) < FX_NEAR_ZERO as int {
        None
    } else {
        let t = fx_div_s(fx_sub_s(qd.d as int, v_dot(qd.normal@, ray.origin@)), denominator);
        if !(t_min <= t && t < t_max) {
            None
        } else {
            let intersection = ray_at_s(ray.origin@, ray.direction@, t);
            let planar = v_sub(intersection, qd.q@);
            let alpha = v_dot(qd.w@, v_cross(planar, qd.v@));
            let beta = v_dot(qd.w@, v_cross(qd.u@, planar));
            if alpha < 0 || (FX_ONE as int) < alpha || beta < 0 || (FX_ONE as int) < beta {
                None
            } else {
                let nf = set_facing_s(ray.direction@, qd.normal@);
                Some(
                    HitRec {
                        point: intersection,
                        normal: nf.0,
                        t,
                        u: alpha,
                        v: beta,
                        facing: nf.1,
                        material: qd.material,
                    },
                )
            }
        }
    }
}

impl Quad {
    pub fn new(q: Point, u: Vector, v: Vector, material: Material) -> (r: Quad)
        ensures
            r.q == q,
            r.u == u,
            r.v == v,
            r.material == material,
            quad_derived_ok(r),
    {
        let n = u.cross(&v);
        let normal = n.normalize();
        let d: i64 = normal.dot(&q);
        let w = n.div(n.length_squared());
        let r = Quad { q, u, v, normal, d, w, material };
        proof {
            reveal(quad_derived_ok);
        }
        r
    }
}

impl Quad {
    /// A copy with the same geometry and an equivalently behaving material:
    /// same well-formedness, same deflection policy, same attenuation and
    /// emission at every query.
    pub fn duplicate(&self) -> (r: Quad)
        ensures
            r.q == self.q,
            r.u == self.u,
            r.v == self.v,
            r.normal == self.normal,
            r.d == self.d,
            r.w == self.w,
            r.material.deflect_wf() == self.material.deflect_wf(),
            r.material.deflects() == self.material.deflects(),
            forall|u: int, v: int, p: V3|
                #[trigger] r.material.attenuation_spec(u, v, p) == self.material.attenuation_spec(
                    u,
                    v,
                    p,
                ),
            forall|u: int, v: int, p: V3|
                #[trigger] r.material.emit_spec(u, v, p) == self.material.emit_spec(u, v, p),
    {
        Quad {
            q: self.q,
            u: self.u,
            v: self.v,
            normal: self.normal,
            d: self.d,
            w: self.w,
            material: self.material.duplicate(),
        }
    }
}

impl Hit for Quad {
    open spec fn hit_wf(&self) -> bool {
        true
    }

    open spec fn hit_spec(&self, ray: Ray, t_min: int, t_max: int) -> Option<HitRec> {
        quad_hit_s(*self, ray, t_min, t_max)
    }

    fn hit<'a>(&'a self, ray: &Ray, t_min: i64, t_max: i64) -> (r: Option<Collision<'a>>)
        ensures
            r matches Some(c) ==> 0 <= c.u && c.u <= FX_ONE && 0 <= c.v && c.v <= FX_ONE,
    {
        let denominator: i64 = self.normal.dot(&ray.direction);

        if fx_abs(denominator) < FX_NEAR_ZERO {
            return None;
        }

        let t: i64 = fx_div(fx_sub(self.d, self.normal.dot(&ray.origin)), denominator);
        if !(t_min <= t && t < t_max) {
            return None;
        }

        let intersection = ray.at(t);
        let planar_hit_vector = intersection.sub(self.q);
        let alpha: i64 = self.w.dot(&planar_hit_vector.cross(&self.v));
        let beta: i64 = self.w.dot(&self.u.cross(&planar_hit_vector));

        if alpha < 0 || FX_ONE < alpha || beta < 0 || FX_ONE < beta {
            return None;
        }

        let (normal, facing) = set_facing(ray, self.normal);

        Some(
            Collision {
                point: intersection,
                normal,
                t,
                u: alpha,
                v: beta,
                facing,
                material: &self.material,
            },
        )
    }
}

/// An unordered aggregate of objects scanned linearly for the nearest hit.
pub struct Collection {
    pub objects: Vec<Object>,
}

/// Closed polymorphic scene object.
pub enum Object {
    Sphere(Sphere),
    Quad(Quad),
    Collection(Collection),
}

/// The nearest hit over the first `n` objects: each object is tested over
/// the full interval and a hit only displaces the record when its parameter
/// is strictly smaller, so the first of equally near hits is kept.
pub open spec fn collection_hit_s(
    objects: Seq<Object>,
    ray: Ray,
    t_min: int,
    t_max: int,
    n: int,
) -> Option<HitRec>
    decreases objects, n,
{
    if n <= 0 || objects.len() < n {
        None
    } else {
        let prev = collection_hit_s(objects, ray, t_min, t_max, n - 1);
        let cur = object_hit_s(objects[n - 1], ray, t_min, t_max);
        let closest = match prev {
            Some(p) => p.t,
            None => t_max,
        };
        match cur {
            Some(h) => if h.t < closest {
                Some(h)
            } else {
                prev
            },
            None => prev,
        }
    }
}

/// Dispatch of the intersection test over the object kinds.
pub open spec fn object_hit_s(o: Object, ray: Ray, t_min: int, t_max: int) -> Option<HitRec>
    decreases o, 0int,
{
    match o {
        Object::Sphere(s) => sphere_hit_s(s.center@, s.radius as int, s.material, ray, t_min, t_max),
        Object::Quad(q) => quad_hit_s(q, ray, t_min, t_max),
        Object::Collection(c) => collection_hit_s(
            c.objects@,
            ray,
            t_min,
            t_max,
            c.objects@.len() as int,
        ),
    }
}

/// Every object in the tree is consistent.
pub open spec fn object_wf(o: Object) -> bool
    decreases o, 0int,
{
    match o {
        Object::Sphere(s) => s.material.deflect_wf(),
        Object::Quad(q) => q.material.deflect_wf(),
        Object::Collection(c) => forall|i: int|
            0 <= i < c.objects@.len() ==> object_wf(#[trigger] c.objects@[i]),
    }
}

impl Collection {
    fn hit_nearest<'a>(&'a self, ray: &Ray, t_min: i64, t_max: i64) -> (r: Option<Collision<'a>>)
        ensures
            match (r, collection_hit_s(
                self.objects@,
                *ray,
                t_min as int,
                t_max as int,
                self.objects@.len() as int,
            )) {
                (Some(c), Some(h)) => collision_matches(c, h),
                (None, None) => true,
                _ => false,
            },
        decreases self,
    {
        let mut closest: i64 = t_max;
        let mut record: Option<Collision<'a>> = None;
        let mut i: usize = 0;

        while i < self.objects.len()
            invariant
                i <= self.objects.len(),
                match (record, collection_hit_s(
                    self.objects@,
                    *ray,
                    t_min as int,
                    t_max as int,
                    i as int,
                )) {
                    (Some(c), Some(h)) => collision_matches(c, h) && closest as int == h.t,
                    (None, None) => closest == t_max,
                    _ => false,
                },
            decreases self.objects.len() - i,
        {
            proof {
                assert(decreases_to!(self => self.objects@[i as int]));
            }
            let o = &self.objects[i];
            if let Some(hit) = o.hit_dispatch(ray, t_min, t_max) {
                if hit.t < closest {
                    closest = hit.t;
                    record = Some(hit);
                }
            }
            i = i + 1;
        }
        record
    }
}

impl Object {
    /// The intersection test, dispatched over the object kind.
    pub fn hit_dispatch<'a>(&'a self, ray: &Ray, t_min: i64, t_max: i64) -> (r: Option<
        Collision<'a>,
    >)
        ensures
            match (r, object_hit_s(*self, *ray, t_min as int, t_max as int)) {
                (Some(c), Some(h)) => collision_matches(c, h),
                (None, None) => true,
                _ => false,
            },
        decreases self,
    {
        match self {
            Object::Sphere(s) => s.hit(ray, t_min, t_max),
            Object::Quad(q) => q.hit(ray, t_min, t_max),
            Object::Collection(c) => c.hit_nearest(ray, t_min, t_max),
        }
    }
}

impl Hit for Collection {
    open spec fn hit_wf(&self) -> bool {
        true
    }

    open spec fn hit_spec(&self, ray: Ray, t_min: int, t_max: int) -> Option<HitRec> {
        collection_hit_s(self.objects@, ray, t_min, t_max, self.objects@.len() as int)
    }

    fn hit<'a>(&'a self, ray: &Ray, t_min: i64, t_max: i64) -> (r: Option<Collision<'a>>) {
        self.hit_nearest(ray, t_min, t_max)
    }
}

impl Hit for Object {
    open spec fn hit_wf(&self) -> bool {
        true
    }

    open spec fn hit_spec(&self, ray: Ray, t_min: int, t_max: int) -> Option<HitRec> {
        object_hit_s(*self, ray, t_min, t_max)
    }

    fn hit<'a>(&'a self, ray: &Ray, t_min: i64, t_max: i64) -> (r: Option<Collision<'a>>) {
        self.hit_dispatch(ray, t_min, t_max)
    }
}

/// Any reported hit parameter lies in the queried interval.
pub proof fn lemma_object_hit_t_in_range(o: Object, ray: Ray, t_min: int, t_max: int)
    ensures
        object_hit_s(o, ray, t_min, t_max) matches Some(h) ==> t_min <= h.t < t_max,
    decreases o, 0int, 1int,
{
    match o {
        Object::Sphere(s) => {},
        Object::Quad(q) => {},
        Object::Collection(c) => {
            lemma_collection_hit_t_in_range(
                c.objects@,
                ray,
                t_min,
                t_max,
                c.objects@.len() as int,
            );
        },
    }
}

pub proof fn lemma_collection_hit_t_in_range(
    objects: Seq<Object>,
    ray: Ray,
    t_min: int,
    t_max: int,
    n: int,
)
    ensures
        collection_hit_s(objects, ray, t_min, t_max, n) matches Some(h) ==> t_min <= h.t < t_max,
    decreases objects, n, 0int,
{
    if n <= 0 || objects.len() < n {
    } else {
        lemma_collection_hit_t_in_range(objects, ray, t_min, t_max, n - 1);
        lemma_object_hit_t_in_range(objects[n - 1], ray, t_min, t_max);
    }
}

/// Among the first `n` objects, no hit is nearer than the collection's
/// answer: whenever one of them hits, the collection reports a hit at most
/// as far along the ray.
pub proof fn lemma_collection_hit_nearest(
    objects: Seq<Object>,
    ray: Ray,
    t_min: int,
    t_max: int,
    n: int,
    i: int,
    h: HitRec,
)
    requires
        0 <= i < n,
        n <= objects.len(),
        object_hit_s(objects[i], ray, t_min, t_max) == Some(h),
    ensures
        collection_hit_s(objects, ray, t_min, t_max, n) is Some,
        collection_hit_s(objects, ray, t_min, t_max, n)->Some_0.t <= h.t,
    decreases n,
{
    let prev = collection_hit_s(objects, ray, t_min, t_max, n - 1);
    let cur = object_hit_s(objects[n - 1], ray, t_min, t_max);
    lemma_object_hit_t_in_range(objects[n - 1], ray, t_min, t_max);
    if i == n - 1 {
        assert(cur == Some(h));
        match prev {
            Some(p) => {
                if h.t < p.t {
                    assert(collection_hit_s(objects, ray, t_min, t_max, n) == Some(h));
                } else {
                    assert(collection_hit_s(objects, ray, t_min, t_max, n) == prev);
                }
            },
            None => {
                assert(h.t < t_max);
                assert(collection_hit_s(objects, ray, t_min, t_max, n) == Some(h));
            },
        }
    } else {
        lemma_collection_hit_nearest(objects, ray, t_min, t_max, n - 1, i, h);
        let p = prev->Some_0;
        match cur {
            Some(c) => {
                if c.t < p.t {
                    assert(collection_hit_s(objects, ray, t_min, t_max, n) == Some(c));
                } else {
                    assert(collection_hit_s(objects, ray, t_min, t_max, n) == prev);
                }
            },
            None => {
                assert(collection_hit_s(objects, ray, t_min, t_max, n) == prev);
            },
        }
    }
}

/// Component-wise minimum corner.
pub open spec fn v_min_s(a: V3, b: V3) -> V3 {
    V3 { x: fx_min_s(a.x, b.x), y: fx_min_s(a.y, b.y), z: fx_min_s(a.z, b.z) }
}

/// Component-wise maximum corner.
pub open spec fn v_max_s(a: V3, b: V3) -> V3 {
    V3 { x: fx_max_s(a.x, b.x), y: fx_max_s(a.y, b.y), z: fx_max_s(a.z, b.z) }
}

/// Rotation of a point about a pivot.
pub open spec fn rotate_about_midpoint_s(point: V3, midpoint: V3, quat: Quaternion) -> V3 {
    v_add(midpoint, q_rotate_point(quat@, v_sub(point, midpoint)))
}

fn rotate_about_midpoint(point: Point, midpoint: Point, quat: Quaternion) -> (r: Point)
    ensures
        r@ == rotate_about_midpoint_s(point@, midpoint@, quat),
{
    let v = point.sub(midpoint);
    let v = quat.rotate_point(v);
    midpoint.add(v)
}

/// The six faces of a box: the corner of each face is a corner of the
/// axis-aligned box spanned by `a` and `b` rotated about the box's
/// midpoint, and its edges are the box's extents rotated in place.
pub open spec fn cuboid_faces_ok(faces: Seq<Quad>, a: V3, b: V3, quat: Quaternion) -> bool {
    let min = v_min_s(a, b);
    let max = v_max_s(a, b);
    let midpoint = v_div(v_add(min, max), crate::fixed::fx_int_s(2));
    let dx = q_rotate_point(quat@, V3 { x: fx_sub_s(max.x, min.x), y: 0, z: 0 });
    let dy = q_rotate_point(quat@, V3 { x: 0, y: fx_sub_s(max.y, min.y), z: 0 });
    let dz = q_rotate_point(quat@, V3 { x: 0, y: 0, z: fx_sub_s(max.z, min.z) });
    &&& faces.len() == 6
    &&& faces[0].q@ == rotate_about_midpoint_s(V3 { x: min.x, y: min.y, z: max.z }, midpoint, quat)
    &&& faces[0].u@ == dx && faces[0].v@ == dy
    &&& faces[1].q@ == rotate_about_midpoint_s(V3 { x: max.x, y: min.y, z: max.z }, midpoint, quat)
    &&& faces[1].u@ == v_neg(dz) && faces[1].v@ == dy
    &&& faces[2].q@ == rotate_about_midpoint_s(V3 { x: max.x, y: min.y, z: min.z }, midpoint, quat)
    &&& faces[2].u@ == v_neg(dx) && faces[2].v@ == dy
    &&& faces[3].q@ == rotate_about_midpoint_s(V3 { x: min.x, y: min.y, z: min.z }, midpoint, quat)
    &&& faces[3].u@ == dz && faces[3].v@ == dy
    &&& faces[4].q@ == rotate_about_midpoint_s(V3 { x: min.x, y: max.y, z: max.z }, midpoint, quat)
    &&& faces[4].u@ == dx && faces[4].v@ == v_neg(dz)
    &&& faces[5].q@ == rotate_about_midpoint_s(V3 { x: min.x, y: min.y, z: min.z }, midpoint, quat)
    &&& faces[5].u@ == dx && faces[5].v@ == dz
}

/// The six faces of the axis-aligned box spanned by `a` and `b`, rotated by
/// `quat` about the box's midpoint. Every face is a well-formed quad carrying
/// the given material, with its corner rotated about the midpoint and its
/// edges rotated in place, as `cuboid_faces_ok` spells out face by face.
#[verifier::rlimit(100)]
pub fn build_cuboid(a: Point, b: Point, quat: Quaternion, material: Material) -> (r: Vec<Quad>)
    ensures
        r.len() == 6,
        forall|i: int| 0 <= i < 6 ==> quad_derived_ok(#[trigger] r@[i]),
        forall|i: int| 0 <= i < 6 ==> (#[trigger] r@[i]).material.deflect_wf() == material.deflect_wf(),
        forall|i: int| 0 <= i < 6 ==> (#[trigger] r@[i]).material.deflects() == material.deflects(),
        forall|i: int, u: int, v: int, p: V3|
            0 <= i < 6 ==> #[trigger] r@[i].material.attenuation_spec(u, v, p)
                == material.attenuation_spec(u, v, p),
        forall|i: int, u: int, v: int, p: V3|
            0 <= i < 6 ==> #[trigger] r@[i].material.emit_spec(u, v, p) == material.emit_spec(
                u,
                v,
                p,
            ),
        cuboid_faces_ok(r@, a@, b@, quat),
{
    let min = Vector {
        x: fx_min(a.x, b.x),
        y: fx_min(a.y, b.y),
        z: fx_min(a.z, b.z),
    };
    let max = Vector {
        x: fx_max(a.x, b.x),
        y: fx_max(a.y, b.y),
        z: fx_max(a.z, b.z),
    };

    let midpoint = min.add(max).div(crate::fixed::fx_of_int(2));

    let dx = Vector { x: fx_sub(max.x, min.x), y: 0, z: 0 };
    let dy = Vector { x: 0, y: fx_sub(max.y, min.y), z: 0 };
    let dz = Vector { x: 0, y: 0, z: fx_sub(max.z, min.z) };

    let dx = quat.rotate_point(dx);
    let dy = quat.rotate_point(dy);
    let dz = quat.rotate_point(dz);

    let mut quads: Vec<Quad> = Vec::new();
    quads.push(
        Quad::new(
            rotate_about_midpoint(Vector { x: min.x, y: min.y, z: max.z }, midpoint, quat),
            dx,
            dy,
            material.duplicate(),
        ),
    );
    quads.push(
        Quad::new(
            rotate_about_midpoint(Vector { x: max.x, y: min.y, z: max.z }, midpoint, quat),
            dz.neg(),
            dy,
            material.duplicate(),
        ),
    );
    quads.push(
        Quad::new(
            rotate_about_midpoint(Vector { x: max.x, y: min.y, z: min.z }, midpoint, quat),
            dx.neg(),
            dy,
            material.duplicate(),
        ),
    );
    quads.push(
        Quad::new(
            rotate_about_midpoint(Vector { x: min.x, y: min.y, z: min.z }, midpoint, quat),
            dz,
            dy,
            material.duplicate(),
        ),
    );
    quads.push(
        Quad::new(
            rotate_about_midpoint(Vector { x: min.x, y: max.y, z: max.z }, midpoint, quat),
            dx,
            dz.neg(),
            material.duplicate(),
        ),
    );
    quads.push(
        Quad::new(
            rotate_about_midpoint(Vector { x: min.x, y: min.y, z: min.z }, midpoint, quat),
            dx,
            dz,
            material.duplicate(),
        ),
    );
    quads
}

} // verus!
