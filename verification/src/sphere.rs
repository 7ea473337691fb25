//! Sphere, and its exact ray intersection test.

use vstd::prelude::*;
use crate::vec::{Vec3, dot3, dot3d, sq_dist, vec_bounded, COORD_MAX};
use crate::ray::{Ray, ray_ok};
use crate::root::Root;
use crate::material::Material;
use crate::shape::{Shape, Intersection, SurfaceDir};
use crate::num::{surd_sign, surd_sign_ex, lemma_abs_mul};

verus! {

/// Direction-component bound for the sphere test (2^40): large enough for
/// viewport-scaled ray directions, small enough that the discriminant fits.
pub const SPHERE_DIR_MAX: i128 = 0x100_0000_0000;

/// A sphere: center, radius and material.
#[derive(Clone, Copy, PartialEq, Eq, Structural, Debug)]
pub struct Sphere {
    pub center: Vec3,
    pub radius: i128,
    pub material: Material,
}

/// Leading quadratic coefficient `a = dr . dr` of the sphere equation.
pub open spec fn sph_a(r: Ray) -> int {
    dot3(r.dr, r.dr)
}

/// Linear coefficient `b = -2 * dr . (center - origin)`.
pub open spec fn sph_b(s: Sphere, r: Ray) -> int {
    -2 * dot3d(r.dr, s.center, r.origin)
}

/// Constant coefficient `c = |center - origin|^2 - radius^2`.
pub open spec fn sph_c(s: Sphere, r: Ray) -> int {
    sq_dist(s.center, r.origin) - s.radius * s.radius
}

/// Discriminant `b^2 - 4*a*c` of the sphere equation.
pub open spec fn sph_disc(s: Sphere, r: Ray) -> int {
    sph_b(s, r) * sph_b(s, r) - 4 * (sph_a(r) * sph_c(s, r))
}

/// The ray misses the sphere: the discriminant is not strictly positive
/// (a tangent ray counts as a miss, deliberately), or the larger root
/// `(-b + sqrt(disc)) / (2a)` is not strictly positive (the sphere lies
/// behind the ray origin).
pub open spec fn sphere_miss(s: Sphere, r: Ray) -> bool {
    ||| sph_disc(s, r) <= 0
    ||| surd_sign(-sph_b(s, r), 1, sph_disc(s, r)) <= 0
}

/// Full contract of the sphere test: a miss exactly under `sphere_miss`;
/// otherwise the hit carries the smaller strictly-positive root of the
/// quadratic, and the normal direction `(origin - center) + t * dr`, which
/// is exactly `hit - center` and so points outward.
pub open spec fn sphere_post(s: Sphere, r: Ray, out: Intersection) -> bool {
    match out {
        Intersection::Miss => sphere_miss(s, r),
        Intersection::Hit { t, normal } => {
            &&& !sphere_miss(s, r)
            &&& t.p == -sph_b(s, r)
            &&& t.sq == sph_disc(s, r)
            &&& t.w == 2 * sph_a(r)
            &&& t.e == (if surd_sign(-sph_b(s, r), -1, sph_disc(s, r)) > 0 {
                -1int
            } else {
                1int
            })
            &&& t.wf()
            &&& normal.base.x == r.origin.x - s.center.x
            &&& normal.base.y == r.origin.y - s.center.y
            &&& normal.base.z == r.origin.z - s.center.z
            &&& normal.slope == r.dr
        },
    }
}

impl Sphere {
    /// Geometric soundness: positive bounded radius, bounded center.
    pub open spec fn wf(self) -> bool {
        &&& 1 <= self.radius <= COORD_MAX
        &&& vec_bounded(self.center, COORD_MAX as int)
    }

    /// Builds a sphere, rejecting a non-positive radius and data outside the
    /// machine bounds of the engine.
    pub fn new(center: Vec3, radius: i128, material: Material) -> (res: Option<Shape>)
        ensures
            match res {
                Some(sh) => sh == Shape::Sphere(Sphere { center, radius, material })
                    && (Sphere { center, radius, material }).wf(),
                None => !(Sphere { center, radius, material }).wf(),
            },
    {
        if 1 <= radius && radius <= COORD_MAX && -COORD_MAX <= center.x && center.x <= COORD_MAX
            && -COORD_MAX <= center.y && center.y <= COORD_MAX && -COORD_MAX <= center.z && center.z
            <= COORD_MAX {
            Some(Shape::Sphere(Sphere { center, radius, material }))
        } else {
            None
        }
    }

    /// Nearest strictly-positive intersection of a ray with the sphere.
    ///
    /// Solves `a*t^2 + b*t + c == 0` exactly; a non-positive discriminant is
    /// a miss (tangency deliberately counts as a miss), and of the two roots
    /// the smaller strictly-positive one is returned.
    pub fn intersects(&self, r: &Ray) -> (out: Intersection)
        requires
            self.wf(),
            ray_ok(*r, SPHERE_DIR_MAX as int),
        ensures
            sphere_post(*self, *r, out),
    {
        let v = self.center.sub(r.origin);
        let a: i128 = r.dr.dot(r.dr);
        let dv: i128 = r.dr.dot(v);
        proof {
            crate::vec::lemma_dot3_bound(r.dr, r.dr, SPHERE_DIR_MAX as int, SPHERE_DIR_MAX as int);
            crate::vec::lemma_dot3_bound(r.dr, v, SPHERE_DIR_MAX as int, 2 * COORD_MAX as int);
            crate::vec::lemma_dot3_bound(v, v, 2 * COORD_MAX as int, 2 * COORD_MAX as int);
            crate::vec::lemma_dot3_self_pos(r.dr);
            lemma_abs_mul(self.radius as int, self.radius as int, COORD_MAX as int,
                COORD_MAX as int);
        }
        let b: i128 = -2 * dv;
        let c: i128 = v.dot(v) - self.radius * self.radius;
        proof {
            lemma_abs_mul(b as int, b as int, 0x200_0000_0000_0000, 0x200_0000_0000_0000);
            lemma_abs_mul(a as int, c as int, 0x4_0000_0000_0000_0000_0000, 0x1_0000_0000);
        }
        let ac: i128 = a * c;
        assert(-(0x4_0000_0000_0000_0000_0000 * 0x1_0000_0000) <= ac <= 0x4_0000_0000_0000_0000_0000
            * 0x1_0000_0000);
        let disc: i128 = b * b - 4 * ac;
        if disc <= 0 {
            return Intersection::Miss;
        }
        let p: i128 = -b;
        let w: i128 = 2 * a;
        let normal = SurfaceDir { base: r.origin.sub(self.center), slope: r.dr };
        if surd_sign_ex(p, -1, disc) > 0 {
            proof {
                crate::num::lemma_surd_e_mono(p as int, disc as int);
            }
            Intersection::Hit { t: Root { p, e: -1, sq: disc, w }, normal }
        } else if surd_sign_ex(p, 1, disc) > 0 {
            Intersection::Hit { t: Root { p, e: 1, sq: disc, w }, normal }
        } else {
            Intersection::Miss
        }
    }
}

/// A ray whose origin lies outside the sphere and whose direction points
/// away from it (nonpositive component toward the center) reports no hit,
/// whatever the exact geometry.
pub proof fn lemma_ray_away_misses(s: Sphere, r: Ray, out: Intersection)
    requires
        s.wf(),
        !crate::vec::is_zero3(r.dr),
        sq_dist(s.center, r.origin) > s.radius * s.radius,
        dot3d(r.dr, s.center, r.origin) <= 0,
        sphere_post(s, r, out),
    ensures
        out matches Intersection::Miss,
{
    let a = sph_a(r);
    let b = sph_b(s, r);
    let c = sph_c(s, r);
    let d = sph_disc(s, r);
    if d > 0 {
        crate::vec::lemma_dot3_self_pos(r.dr);
        assert(b >= 0);
        assert(c > 0);
        assert(4 * (a * c) > 0) by (nonlinear_arith)
            requires
                a >= 1,
                c > 0,
        ;
        if b == 0 {
            assert(d == b * b - 4 * (a * c) <= 0) by (nonlinear_arith)
                requires
                    b == 0,
                    d == b * b - 4 * (a * c),
                    4 * (a * c) > 0,
            ;
        } else {
            assert((-b) * (-b) - 1 * 1 * d > 0) by (nonlinear_arith)
                requires
                    d == b * b - 4 * (a * c),
                    4 * (a * c) > 0,
            ;
            assert(crate::num::sign_of(-b) == -1);
            assert(surd_sign(-b, 1, d) == -1);
        }
    }
    assert(sphere_miss(s, r));
}

/// At any sphere hit, the reported normal direction evaluated at any
/// parameter is exactly the vector from the center to the corresponding ray
/// point: the normal points outward by construction.
pub proof fn lemma_sphere_normal_is_radial(
    s: Sphere,
    r: Ray,
    t: Root,
    normal: SurfaceDir,
    tau: int,
)
    requires
        sphere_post(s, r, Intersection::Hit { t, normal }),
    ensures
        normal.base.x + tau * normal.slope.x == (r.origin.x + tau * r.dr.x) - s.center.x,
        normal.base.y + tau * normal.slope.y == (r.origin.y + tau * r.dr.y) - s.center.y,
        normal.base.z + tau * normal.slope.z == (r.origin.z + tau * r.dr.z) - s.center.z,
{
}

} // verus!

