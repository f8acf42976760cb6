//! A ray: origin plus direction, with parametrized point lookup.

use crate::vector::{v_add, v_scale, Point, Vector, V3};
use vstd::prelude::*;

verus! {

#[derive(Clone, Copy, Debug, PartialEq, Eq, Structural)]
pub struct Ray {
    pub origin: Point,
    pub direction: Vector,
}

/// The point reached after travelling `t` along the ray.
pub open spec fn ray_at_s(origin: V3, direction: V3, t: int) -> V3 {
    v_add(origin, v_scale(direction, t))
}

impl Ray {
    pub fn new(origin: Point, direction: Vector) -> (r: Self)
        ensures
            r.origin == origin,
            r.direction == direction,
    {
        Ray { origin, direction }
    }

    /// `origin + direction * t`.
    pub fn at(&self, t: i64) -> (p: Point)
        ensures
            p@ == ray_at_s(self.origin@, self.direction@, t as int),
    {
        self.origin.add(self.direction.mul(t))
    }
}

} // verus!
