//! A ray: origin plus direction, the parametrized point set
//! `origin + t * dr`.

use vstd::prelude::*;
use crate::vec::{Vec3, vec_bounded, is_zero3, COORD_MAX};

verus! {

/// A ray cast from `origin` along `dr`. The direction need not be normalized:
/// hit distances `t` are relative to `|dr|`, and hit/miss decisions do not
/// depend on its length.
#[derive(Clone, Copy, PartialEq, Eq, Structural, Debug)]
pub struct Ray {
    pub origin: Vec3,
    pub dr: Vec3,
}

/// A ray the intersection tests accept: bounded origin, nonzero direction.
/// `dir_max` is the per-shape direction bound that keeps the shape's algebra
/// inside `i128`.
pub open spec fn ray_ok(r: Ray, dir_max: int) -> bool {
    &&& vec_bounded(r.origin, COORD_MAX as int)
    &&& vec_bounded(r.dr, dir_max)
    &&& !is_zero3(r.dr)
}

impl Ray {
    /// Builds the ray from `origin` along `dr`. A zero direction is a caller
    /// contract violation for the intersection tests, not checked here.
    pub fn new(origin: Vec3, dr: Vec3) -> (r: Ray)
        ensures
            r == (Ray { origin, dr }),
    {
        Ray { origin, dr }
    }

    /// The point `origin + t * dr` for an integer parameter.
    pub fn at(self, t: i128) -> (p: Vec3)
        requires
            i128::MIN <= self.dr.x * t <= i128::MAX,
            i128::MIN <= self.dr.y * t <= i128::MAX,
            i128::MIN <= self.dr.z * t <= i128::MAX,
            i128::MIN <= self.origin.x + self.dr.x * t <= i128::MAX,
            i128::MIN <= self.origin.y + self.dr.y * t <= i128::MAX,
            i128::MIN <= self.origin.z + self.dr.z * t <= i128::MAX,
        ensures
            p.x == self.origin.x + self.dr.x * t,
            p.y == self.origin.y + self.dr.y * t,
            p.z == self.origin.z + self.dr.z * t,
    {
        Vec3 {
            x: self.origin.x + self.dr.x * t,
            y: self.origin.y + self.dr.y * t,
            z: self.origin.z + self.dr.z * t,
        }
    }
}

} // verus!
