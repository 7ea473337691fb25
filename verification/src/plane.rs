//! Infinite plane, and its exact ray intersection test.

use vstd::prelude::*;
use crate::vec::{Vec3, dot3, dot3d, vec_bounded, COORD_MAX};
use crate::ray::{Ray, ray_ok};
use crate::root::Root;
use crate::material::Material;
use crate::shape::{Shape, Intersection, SurfaceDir};

verus! {

/// Direction-component bound for the plane test (2^40).
pub const PLANE_DIR_MAX: i128 = 0x100_0000_0000;

/// A plane through the known point `pc` with normal vector `normal`.
#[derive(Clone, Copy, PartialEq, Eq, Structural, Debug)]
pub struct Plane {
    pub pc: Vec3,
    pub normal: Vec3,
    pub material: Material,
}

/// Numerator of the plane equation: `normal . (origin - pc)`.
pub open spec fn plane_top(pl: Plane, r: Ray) -> int {
    dot3d(pl.normal, r.origin, pl.pc)
}

/// Denominator of the plane equation: `normal . dr`. Zero exactly when the
/// ray is parallel to the plane.
pub open spec fn plane_bottom(pl: Plane, r: Ray) -> int {
    dot3(pl.normal, r.dr)
}

/// Full contract of the plane test: a parallel ray (denominator zero) is a
/// miss whatever its origin; otherwise the hit distance is exactly
/// `-top / bottom`, sign-normalized to a positive denominator. The sign of
/// `t` is not pre-filtered here: a non-positive `t` means the plane lies
/// behind the ray origin and is for the consumer to reject. The returned
/// normal is the plane's own fixed normal, not reoriented toward the ray.
pub open spec fn plane_post(pl: Plane, r: Ray, out: Intersection) -> bool {
    match out {
        Intersection::Miss => plane_bottom(pl, r) == 0,
        Intersection::Hit { t, normal } => {
            &&& plane_bottom(pl, r) != 0
            &&& t.e == 0
            &&& t.sq == 0
            &&& (plane_bottom(pl, r) > 0 ==> t.p == -plane_top(pl, r) && t.w == plane_bottom(pl, r))
            &&& (plane_bottom(pl, r) < 0 ==> t.p == plane_top(pl, r) && t.w == -plane_bottom(pl, r))
            &&& t.wf()
            &&& t.in_range()
            &&& normal.base == pl.normal
            &&& normal.slope == (Vec3 { x: 0, y: 0, z: 0 })
        },
    }
}

impl Plane {
    /// Bounded data; a zero normal is admitted and simply never hits.
    pub open spec fn wf(self) -> bool {
        &&& vec_bounded(self.pc, COORD_MAX as int)
        &&& vec_bounded(self.normal, COORD_MAX as int)
    }

    /// Builds a plane through `pc` with normal `normal`, wrapped in the
    /// closed shape union.
    pub fn new(pc: Vec3, normal: Vec3, material: Material) -> (sh: Shape)
        requires
            vec_bounded(pc, COORD_MAX as int),
            vec_bounded(normal, COORD_MAX as int),
        ensures
            sh == Shape::Plane(Plane { pc, normal, material }),
    {
        Shape::Plane(Plane { pc, normal, material })
    }

    /// Intersection of a ray with the plane: exactly `-top / bottom`, or a
    /// miss for a parallel ray.
    pub fn intersects(&self, r: &Ray) -> (out: Intersection)
        requires
            self.wf(),
            ray_ok(*r, PLANE_DIR_MAX as int),
        ensures
            plane_post(*self, *r, out),
    {
        let op = r.origin.sub(self.pc);
        let top: i128 = self.normal.dot(op);
        let bottom: i128 = self.normal.dot(r.dr);
        proof {
            crate::vec::lemma_dot3_bound(self.normal, op, COORD_MAX as int, 2 * COORD_MAX as int);
            crate::vec::lemma_dot3_bound(self.normal, r.dr, COORD_MAX as int,
                PLANE_DIR_MAX as int);
        }
        if bottom == 0 {
            return Intersection::Miss;
        }
        let t = if bottom > 0 {
            Root { p: -top, e: 0, sq: 0, w: bottom }
        } else {
            Root { p: top, e: 0, sq: 0, w: -bottom }
        };
        Intersection::Hit {
            t,
            normal: SurfaceDir { base: self.normal, slope: Vec3 { x: 0, y: 0, z: 0 } },
        }
    }
}

/// A ray exactly parallel to the plane (normal . direction == 0) yields no
/// hit, independent of its origin.
pub proof fn lemma_parallel_ray_misses(pl: Plane, r: Ray, out: Intersection)
    requires
        dot3(pl.normal, r.dr) == 0,
        plane_post(pl, r, out),
    ensures
        out matches Intersection::Miss,
{
}

} // verus!

