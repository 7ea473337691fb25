//! The closed set of shape variants and the result of an intersection test.

use vstd::prelude::*;
use crate::vec::Vec3;
use crate::ray::Ray;
use crate::root::Root;
use crate::material::Material;
use crate::sphere::Sphere;
use crate::plane::Plane;
use crate::cilinder::Cilinder;

verus! {

/// Direction of the surface normal at a hit, kept exact: the (unnormalized)
/// normal direction at hit distance `t` is `base + t * slope`. Surfaces with
/// a fixed normal use `slope == 0`.
#[derive(Clone, Copy, PartialEq, Eq, Structural, Debug)]
pub struct SurfaceDir {
    pub base: Vec3,
    pub slope: Vec3,
}

impl SurfaceDir {
    /// Evaluates the direction at an integer parameter, for consumers that
    /// work at integer hit distances.
    pub fn at(self, t: i128) -> (v: Vec3)
        requires
            i128::MIN <= self.slope.x * t <= i128::MAX,
            i128::MIN <= self.slope.y * t <= i128::MAX,
            i128::MIN <= self.slope.z * t <= i128::MAX,
            i128::MIN <= self.base.x + self.slope.x * t <= i128::MAX,
            i128::MIN <= self.base.y + self.slope.y * t <= i128::MAX,
            i128::MIN <= self.base.z + self.slope.z * t <= i128::MAX,
        ensures
            v.x == self.base.x + self.slope.x * t,
            v.y == self.base.y + self.slope.y * t,
            v.z == self.base.z + self.slope.z * t,
    {
        Vec3 {
            x: self.base.x + self.slope.x * t,
            y: self.base.y + self.slope.y * t,
            z: self.base.z + self.slope.z * t,
        }
    }
}

/// Result of testing a ray against a shape: either no forward hit, or the
/// exact hit distance together with the direction of the surface normal
/// there.
#[derive(Clone, Copy, PartialEq, Eq, Structural, Debug)]
pub enum Intersection {
    Miss,
    Hit { t: Root, normal: SurfaceDir },
}

/// The closed set of solids the engine knows; each variant carries its
/// geometric parameters and a material. Dispatch is a total match, so every
/// variant is statically enumerable.
#[derive(Clone, Copy, PartialEq, Eq, Structural, Debug)]
pub enum Shape {
    Sphere(Sphere),
    Plane(Plane),
    Cilinder(Cilinder),
}

impl Shape {
    /// Well-formedness of the carried variant.
    pub open spec fn wf(self) -> bool {
        match self {
            Shape::Sphere(s) => s.wf(),
            Shape::Plane(p) => p.wf(),
            Shape::Cilinder(c) => c.wf(),
        }
    }

    /// Direction-component bound under which the variant's algebra is exact.
    pub open spec fn dir_max(self) -> int {
        match self {
            Shape::Sphere(_) => crate::sphere::SPHERE_DIR_MAX as int,
            Shape::Plane(_) => crate::plane::PLANE_DIR_MAX as int,
            Shape::Cilinder(_) => crate::cilinder::CYL_DIR_MAX as int,
        }
    }

    /// The contract of `intersects`, per variant.
    pub open spec fn intersect_post(self, r: Ray, out: Intersection) -> bool {
        match self {
            Shape::Sphere(s) => crate::sphere::sphere_post(s, r, out),
            Shape::Plane(p) => crate::plane::plane_post(p, r, out),
            Shape::Cilinder(c) => crate::cilinder::cyl_post(c, r, out),
        }
    }

    /// The material of the shape.
    pub fn material(&self) -> (m: &Material)
        ensures
            *m == self.material_spec(),
    {
        match self {
            Shape::Sphere(s) => &s.material,
            Shape::Plane(p) => &p.material,
            Shape::Cilinder(c) => &c.material,
        }
    }

    /// The material of the shape, at the specification level.
    pub open spec fn material_spec(self) -> Material {
        match self {
            Shape::Sphere(s) => s.material,
            Shape::Plane(p) => p.material,
            Shape::Cilinder(c) => c.material,
        }
    }

    /// Nearest forward intersection of a ray with this shape, dispatched
    /// over the closed set of variants.
    pub fn intersects(&self, r: &Ray) -> (out: Intersection)
        requires
            self.wf(),
            crate::ray::ray_ok(*r, self.dir_max()),
        ensures
            self.intersect_post(*r, out),
    {
        match self {
            Shape::Sphere(s) => s.intersects(r),
            Shape::Plane(p) => p.intersects(r),
            Shape::Cilinder(c) => c.intersects(r),
        }
    }
}

} // verus!
