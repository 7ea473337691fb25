//! Finite cylinder, and its exact ray intersection test.
//!
//! The cylinder is given by its base-cap center `cb`, its top-cap center
//! `ct` and its radius: the axis vector is `A = ct - cb`, the height is
//! `|A|`, and the unit axis is `A / |A|`. Working with the integer axis `A`
//! instead of an irrational unit axis keeps everything exact: the usual
//! lateral quadratic (built from the orthogonal projector `I - u (x) u`)
//! is multiplied through by `(A . A)^2`, a positive factor that moves
//! neither its roots nor any sign the test depends on.

use vstd::prelude::*;
use crate::vec::{Vec3, dot3, dot3d, ddot, sq_dist, vec_bounded, COORD_MAX};
use crate::ray::{Ray, ray_ok};
use crate::root::{Root, rat_lt_surd, rat_lt_root_ex};
use crate::material::Material;
use crate::shape::{Shape, Intersection, SurfaceDir};
use crate::num::{surd_sign, surd_sign_ex, lemma_abs_mul};

verus! {

/// Direction-component bound for the cylinder test (2^15): its algebra is
/// of higher degree than the sphere's, so the bound is tighter.
pub const CYL_DIR_MAX: i128 = 32768;

/// A finite cylinder: radius `r`, base-cap center `cb`, top-cap center `ct`.
#[derive(Clone, Copy, PartialEq, Eq, Structural, Debug)]
pub struct Cilinder {
    pub r: i128,
    pub cb: Vec3,
    pub ct: Vec3,
    pub material: Material,
}

/// Squared axis length `A . A` (the squared height).
pub open spec fn cyl_aa(c: Cilinder) -> int {
    sq_dist(c.ct, c.cb)
}

/// `A . dr`: the axial component of the ray direction, scaled by `|A|`.
pub open spec fn cyl_delta(c: Cilinder, r: Ray) -> int {
    dot3d(r.dr, c.ct, c.cb)
}

/// `A . (origin - cb)`: the axial coordinate of the ray origin.
pub open spec fn cyl_gamma(c: Cilinder, r: Ray) -> int {
    ddot(c.ct, c.cb, r.origin, c.cb)
}

/// `A . (origin - ct)`: the axial coordinate relative to the top cap.
pub open spec fn cyl_topn(c: Cilinder, r: Ray) -> int {
    ddot(c.ct, c.cb, r.origin, c.ct)
}

/// Leading coefficient of the lateral quadratic, scaled by `A . A`:
/// `(A.A)(dr.dr) - (A.dr)^2`. Nonnegative by the Cauchy-Schwarz inequality;
/// zero exactly when the ray runs parallel to the axis.
pub open spec fn cyl_la(c: Cilinder, r: Ray) -> int {
    cyl_aa(c) * dot3(r.dr, r.dr) - cyl_delta(c, r) * cyl_delta(c, r)
}

/// Linear coefficient of the scaled lateral quadratic.
pub open spec fn cyl_lb(c: Cilinder, r: Ray) -> int {
    2 * (cyl_aa(c) * dot3d(r.dr, r.origin, c.cb) - cyl_delta(c, r) * cyl_gamma(c, r))
}

/// Constant coefficient of the scaled lateral quadratic.
pub open spec fn cyl_lc(c: Cilinder, r: Ray) -> int {
    cyl_aa(c) * sq_dist(r.origin, c.cb) - cyl_gamma(c, r) * cyl_gamma(c, r) - (c.r * c.r) * cyl_aa(
        c)
}

/// Discriminant of the scaled lateral quadratic.
pub open spec fn cyl_ldisc(c: Cilinder, r: Ray) -> int {
    cyl_lb(c, r) * cyl_lb(c, r) - 4 * (cyl_la(c, r) * cyl_lc(c, r))
}

/// A root of the lateral quadratic (`e` picks the branch) is accepted when
/// it is strictly positive and its hit point lies strictly between the two
/// cap planes: `0 < A . (hit - cb) < A . A`.
pub open spec fn cyl_lat_accept(c: Cilinder, r: Ray, e: int) -> bool {
    let p = -cyl_lb(c, r);
    let w = 2 * cyl_la(c, r);
    let dl = cyl_delta(c, r);
    let gm = cyl_gamma(c, r);
    let q = cyl_ldisc(c, r);
    &&& surd_sign(p, e, q) > 0
    &&& surd_sign(gm * w + dl * p, dl * e, q) > 0
    &&& surd_sign((gm - cyl_aa(c)) * w + dl * p, dl * e, q) < 0
}

/// Which lateral root wins: -1 for the smaller branch, 1 for the larger,
/// 0 for none. A degenerate leading coefficient (ray parallel to the axis)
/// and a non-positive discriminant (tangency included) yield no candidate.
pub open spec fn cyl_lat_choice(c: Cilinder, r: Ray) -> int {
    if cyl_la(c, r) > 0 && cyl_ldisc(c, r) > 0 {
        if cyl_lat_accept(c, r, -1) {
            -1
        } else if cyl_lat_accept(c, r, 1) {
            1
        } else {
            0
        }
    } else {
        0
    }
}

/// Numerator of the top-cap hit distance, sign-normalized to a positive
/// denominator `cyl_cap_tw`.
pub open spec fn cyl_top_tp(c: Cilinder, r: Ray) -> int {
    if cyl_delta(c, r) > 0 {
        -cyl_topn(c, r)
    } else {
        cyl_topn(c, r)
    }
}

/// Numerator of the base-cap hit distance, sign-normalized likewise.
pub open spec fn cyl_base_tp(c: Cilinder, r: Ray) -> int {
    if cyl_delta(c, r) > 0 {
        -cyl_gamma(c, r)
    } else {
        cyl_gamma(c, r)
    }
}

/// Common positive denominator of both cap hit distances: `|A . dr|`.
pub open spec fn cyl_cap_tw(c: Cilinder, r: Ray) -> int {
    if cyl_delta(c, r) > 0 {
        cyl_delta(c, r)
    } else {
        -cyl_delta(c, r)
    }
}

/// The cap hit point `origin + (tp/tw) * dr` lies within radius `c.r` of the
/// cap center, compared on squares after clearing the denominator.
pub open spec fn cyl_cap_radial(c: Cilinder, r: Ray, center: Vec3, tp: int, tw: int) -> bool {
    let ux = tw * (r.origin.x - center.x) + tp * r.dr.x;
    let uy = tw * (r.origin.y - center.y) + tp * r.dr.y;
    let uz = tw * (r.origin.z - center.z) + tp * r.dr.z;
    ux * ux + uy * uy + uz * uz <= (c.r * c.r) * (tw * tw)
}

/// The top cap is hit: the ray is not parallel to the axis, the hit distance
/// is nonnegative, it improves on the accepted lateral root if any, and the
/// hit point lies within the cap disc.
pub open spec fn cyl_top_accept(c: Cilinder, r: Ray) -> bool {
    &&& cyl_delta(c, r) != 0
    &&& cyl_top_tp(c, r) >= 0
    &&& (cyl_lat_choice(c, r) == 0 || rat_lt_surd(cyl_top_tp(c, r), cyl_cap_tw(c, r), -cyl_lb(c, r),
        cyl_lat_choice(c, r), cyl_ldisc(c, r), 2 * cyl_la(c, r)))
    &&& cyl_cap_radial(c, r, c.ct, cyl_top_tp(c, r), cyl_cap_tw(c, r))
}

/// The base cap is hit and improves on whatever candidate stands so far.
pub open spec fn cyl_base_accept(c: Cilinder, r: Ray) -> bool {
    &&& cyl_delta(c, r) != 0
    &&& cyl_base_tp(c, r) >= 0
    &&& if cyl_top_accept(c, r) {
        rat_lt_surd(cyl_base_tp(c, r), cyl_cap_tw(c, r), cyl_top_tp(c, r), 0, 0, cyl_cap_tw(c, r))
    } else if cyl_lat_choice(c, r) != 0 {
        rat_lt_surd(cyl_base_tp(c, r), cyl_cap_tw(c, r), -cyl_lb(c, r), cyl_lat_choice(c, r),
            cyl_ldisc(c, r), 2 * cyl_la(c, r))
    } else {
        true
    }
    &&& cyl_cap_radial(c, r, c.cb, cyl_base_tp(c, r), cyl_cap_tw(c, r))
}

/// Normal direction at a cap hit: the axis, oriented against the incoming
/// ray (`A * -sign(A . dr)`), with no dependence on the hit distance.
pub open spec fn cyl_cap_normal_ok(c: Cilinder, r: Ray, normal: SurfaceDir) -> bool {
    &&& (cyl_delta(c, r) > 0 ==> normal.base.x == c.cb.x - c.ct.x && normal.base.y == c.cb.y
        - c.ct.y && normal.base.z == c.cb.z - c.ct.z)
    &&& (cyl_delta(c, r) < 0 ==> normal.base.x == c.ct.x - c.cb.x && normal.base.y == c.ct.y
        - c.cb.y && normal.base.z == c.ct.z - c.cb.z)
    &&& normal.slope == (Vec3 { x: 0, y: 0, z: 0 })
}

/// Normal direction at a lateral hit: the component of `hit - cb` orthogonal
/// to the axis, scaled by `A . A`; at hit distance `t` it is
/// `base + t * slope` with `base = (A.A)(origin - cb) - (A.(origin - cb)) A`
/// and `slope = (A.A) dr - (A.dr) A`.
pub open spec fn cyl_lat_normal_ok(c: Cilinder, r: Ray, normal: SurfaceDir) -> bool {
    &&& normal.base.x == cyl_aa(c) * (r.origin.x - c.cb.x) - cyl_gamma(c, r) * (c.ct.x - c.cb.x)
    &&& normal.base.y == cyl_aa(c) * (r.origin.y - c.cb.y) - cyl_gamma(c, r) * (c.ct.y - c.cb.y)
    &&& normal.base.z == cyl_aa(c) * (r.origin.z - c.cb.z) - cyl_gamma(c, r) * (c.ct.z - c.cb.z)
    &&& normal.slope.x == cyl_aa(c) * r.dr.x - cyl_delta(c, r) * (c.ct.x - c.cb.x)
    &&& normal.slope.y == cyl_aa(c) * r.dr.y - cyl_delta(c, r) * (c.ct.y - c.cb.y)
    &&& normal.slope.z == cyl_aa(c) * r.dr.z - cyl_delta(c, r) * (c.ct.z - c.cb.z)
}

/// Full contract of the cylinder test. Three candidate surfaces are
/// evaluated in order — lateral wall, top cap, base cap — each accepted only
/// when it improves on the candidate standing before it, so the winner is
/// the globally nearest accepted hit; a miss means no surface accepted.
pub open spec fn cyl_post(c: Cilinder, r: Ray, out: Intersection) -> bool {
    match out {
        Intersection::Miss => cyl_lat_choice(c, r) == 0 && !cyl_top_accept(c, r)
            && !cyl_base_accept(c, r),
        Intersection::Hit { t, normal } => {
            &&& t.wf()
            &&& if cyl_base_accept(c, r) {
                &&& t.p == cyl_base_tp(c, r)
                &&& t.e == 0
                &&& t.sq == 0
                &&& t.w == cyl_cap_tw(c, r)
                &&& cyl_cap_normal_ok(c, r, normal)
            } else if cyl_top_accept(c, r) {
                &&& t.p == cyl_top_tp(c, r)
                &&& t.e == 0
                &&& t.sq == 0
                &&& t.w == cyl_cap_tw(c, r)
                &&& cyl_cap_normal_ok(c, r, normal)
            } else {
                &&& cyl_lat_choice(c, r) != 0
                &&& t.p == -cyl_lb(c, r)
                &&& t.e == cyl_lat_choice(c, r)
                &&& t.sq == cyl_ldisc(c, r)
                &&& t.w == 2 * cyl_la(c, r)
                &&& cyl_lat_normal_ok(c, r, normal)
            }
        },
    }
}

impl Cilinder {
    /// Geometric soundness: positive bounded radius, bounded distinct cap
    /// centers (so the height `|ct - cb|` is positive).
    pub open spec fn wf(self) -> bool {
        &&& 1 <= self.r <= COORD_MAX
        &&& vec_bounded(self.cb, COORD_MAX as int)
        &&& vec_bounded(self.ct, COORD_MAX as int)
        &&& !(self.cb == self.ct)
    }

    /// Builds a cylinder from radius and the two cap centers, rejecting a
    /// non-positive radius, coinciding caps, and data outside the machine
    /// bounds of the engine.
    pub fn new(r: i128, cb: Vec3, ct: Vec3, material: Material) -> (res: Option<Shape>)
        ensures
            match res {
                Some(sh) => sh == Shape::Cilinder(Cilinder { r, cb, ct, material }) && (Cilinder {
                    r,
                    cb,
                    ct,
                    material,
                }).wf(),
                None => !(Cilinder { r, cb, ct, material }).wf(),
            },
    {
        let bounded = 1 <= r && r <= COORD_MAX && -COORD_MAX <= cb.x && cb.x <= COORD_MAX
            && -COORD_MAX <= cb.y && cb.y <= COORD_MAX && -COORD_MAX <= cb.z && cb.z <= COORD_MAX
            && -COORD_MAX <= ct.x && ct.x <= COORD_MAX && -COORD_MAX <= ct.y && ct.y <= COORD_MAX
            && -COORD_MAX <= ct.z && ct.z <= COORD_MAX;
        if bounded && !(cb.x == ct.x && cb.y == ct.y && cb.z == ct.z) {
            Some(Shape::Cilinder(Cilinder { r, cb, ct, material }))
        } else {
            None
        }
    }

    /// Nearest accepted intersection of a ray with the cylinder: lateral
    /// wall roots filtered to the band between the caps, then each cap disc,
    /// keeping the nearest accepted candidate throughout.
    pub fn intersects(&self, r: &Ray) -> (out: Intersection)
        requires
            self.wf(),
            ray_ok(*r, CYL_DIR_MAX as int),
        ensures
            cyl_post(*self, *r, out),
    {
        let av = self.ct.sub(self.cb);
        let s = r.origin.sub(self.cb);
        let aa: i128 = av.dot(av);
        let dd: i128 = r.dr.dot(r.dr);
        let dl: i128 = av.dot(r.dr);
        let gm: i128 = av.dot(s);
        let ds: i128 = r.dr.dot(s);
        let ss: i128 = s.dot(s);
        proof {
            crate::vec::lemma_dot3_bound(av, av, 2 * COORD_MAX as int, 2 * COORD_MAX as int);
            crate::vec::lemma_dot3_bound(r.dr, r.dr, CYL_DIR_MAX as int, CYL_DIR_MAX as int);
            crate::vec::lemma_dot3_bound(av, r.dr, 2 * COORD_MAX as int, CYL_DIR_MAX as int);
            crate::vec::lemma_dot3_bound(av, s, 2 * COORD_MAX as int, 2 * COORD_MAX as int);
            crate::vec::lemma_dot3_bound(r.dr, s, CYL_DIR_MAX as int, 2 * COORD_MAX as int);
            crate::vec::lemma_dot3_bound(s, s, 2 * COORD_MAX as int, 2 * COORD_MAX as int);
            lemma_abs_mul(aa as int, dd as int, 0xC00_0000, 0xC000_0000);
            lemma_abs_mul(dl as int, dl as int, 0x3000_0000, 0x3000_0000);
            lemma_abs_mul(aa as int, ds as int, 0xC00_0000, 0x3000_0000);
            lemma_abs_mul(dl as int, gm as int, 0x3000_0000, 0xC00_0000);
            lemma_abs_mul(aa as int, ss as int, 0xC00_0000, 0xC00_0000);
            lemma_abs_mul(gm as int, gm as int, 0xC00_0000, 0xC00_0000);
            lemma_abs_mul(self.r as int, self.r as int, COORD_MAX as int, COORD_MAX as int);
        }
        let la: i128 = aa * dd - dl * dl;
        let lb: i128 = 2 * (aa * ds - dl * gm);
        proof {
            lemma_abs_mul((self.r * self.r) as int, aa as int, 0x100_0000, 0xC00_0000);
            lemma_abs_mul(lb as int, lb as int, 0x900_0000_0000_0000, 0x900_0000_0000_0000);
        }
        let lc: i128 = aa * ss - gm * gm - (self.r * self.r) * aa;
        proof {
            lemma_abs_mul(la as int, lc as int, 0x1200_0000_0000_0000, 0x200_0000_0000_0000);
        }
        let ldisc: i128 = lb * lb - 4 * (la * lc);
        let p: i128 = -lb;

        // Lateral wall: try the smaller branch, then the larger.
        let mut choice: i128 = 0;
        if la > 0 && ldisc > 0 {
            let w: i128 = 2 * la;
            proof {
                lemma_abs_mul(gm as int, w as int, 0xC00_0000, 0x2400_0000_0000_0000);
                lemma_abs_mul(dl as int, p as int, 0x3000_0000, 0x900_0000_0000_0000);
                lemma_abs_mul((gm - aa) as int, w as int, 0x1800_0000, 0x2400_0000_0000_0000);
            }
            if surd_sign_ex(p, -1, ldisc) > 0 && surd_sign_ex(gm * w + dl * p, dl * -1, ldisc) > 0
                && surd_sign_ex((gm - aa) * w + dl * p, dl * -1, ldisc) < 0 {
                choice = -1;
            } else if surd_sign_ex(p, 1, ldisc) > 0 && surd_sign_ex(gm * w + dl * p, dl * 1, ldisc)
                > 0 && surd_sign_ex((gm - aa) * w + dl * p, dl * 1, ldisc) < 0 {
                choice = 1;
            }
        }
        assert(choice == cyl_lat_choice(*self, *r));
        let lat_root = Root { p, e: choice, sq: ldisc, w: 2 * la };

        // Top cap.
        let ot = r.origin.sub(self.ct);
        let topn: i128 = av.dot(ot);
        proof {
            crate::vec::lemma_dot3_bound(av, ot, 2 * COORD_MAX as int, 2 * COORD_MAX as int);
        }
        let tw: i128 = if dl > 0 {
            dl
        } else {
            -dl
        };
        let top_tp: i128 = if dl > 0 {
            -topn
        } else {
            topn
        };
        let base_tp: i128 = if dl > 0 {
            -gm
        } else {
            gm
        };
        let top_acc: bool = dl != 0 && top_tp >= 0 && (choice == 0 || rat_lt_root_ex(top_tp, tw,
            &lat_root)) && self.cap_radial(r, &self.ct, top_tp, tw);
        let base_acc: bool = if dl != 0 && base_tp >= 0 {
            let base_better: bool = if top_acc {
                let top_as_root = Root { p: top_tp, e: 0, sq: 0, w: tw };
                rat_lt_root_ex(base_tp, tw, &top_as_root)
            } else if choice != 0 {
                rat_lt_root_ex(base_tp, tw, &lat_root)
            } else {
                true
            };
            base_better && self.cap_radial(r, &self.cb, base_tp, tw)
        } else {
            false
        };

        let cap_normal = SurfaceDir {
            base: if dl > 0 {
                self.cb.sub(self.ct)
            } else {
                av
            },
            slope: Vec3 { x: 0, y: 0, z: 0 },
        };
        if base_acc {
            Intersection::Hit { t: Root { p: base_tp, e: 0, sq: 0, w: tw }, normal: cap_normal }
        } else if top_acc {
            Intersection::Hit { t: Root { p: top_tp, e: 0, sq: 0, w: tw }, normal: cap_normal }
        } else if choice != 0 {
            proof {
                lemma_abs_mul(aa as int, (r.origin.x - self.cb.x) as int, 0xC00_0000, 0x2000);
                lemma_abs_mul(aa as int, (r.origin.y - self.cb.y) as int, 0xC00_0000, 0x2000);
                lemma_abs_mul(aa as int, (r.origin.z - self.cb.z) as int, 0xC00_0000, 0x2000);
                lemma_abs_mul(gm as int, (self.ct.x - self.cb.x) as int, 0xC00_0000, 0x2000);
                lemma_abs_mul(gm as int, (self.ct.y - self.cb.y) as int, 0xC00_0000, 0x2000);
                lemma_abs_mul(gm as int, (self.ct.z - self.cb.z) as int, 0xC00_0000, 0x2000);
                lemma_abs_mul(aa as int, r.dr.x as int, 0xC00_0000, CYL_DIR_MAX as int);
                lemma_abs_mul(aa as int, r.dr.y as int, 0xC00_0000, CYL_DIR_MAX as int);
                lemma_abs_mul(aa as int, r.dr.z as int, 0xC00_0000, CYL_DIR_MAX as int);
                lemma_abs_mul(dl as int, (self.ct.x - self.cb.x) as int, 0x3000_0000, 0x2000);
                lemma_abs_mul(dl as int, (self.ct.y - self.cb.y) as int, 0x3000_0000, 0x2000);
                lemma_abs_mul(dl as int, (self.ct.z - self.cb.z) as int, 0x3000_0000, 0x2000);
            }
            let lat_normal = SurfaceDir {
                base: Vec3 {
                    x: aa * (r.origin.x - self.cb.x) - gm * (self.ct.x - self.cb.x),
                    y: aa * (r.origin.y - self.cb.y) - gm * (self.ct.y - self.cb.y),
                    z: aa * (r.origin.z - self.cb.z) - gm * (self.ct.z - self.cb.z),
                },
                slope: Vec3 {
                    x: aa * r.dr.x - dl * (self.ct.x - self.cb.x),
                    y: aa * r.dr.y - dl * (self.ct.y - self.cb.y),
                    z: aa * r.dr.z - dl * (self.ct.z - self.cb.z),
                },
            };
            Intersection::Hit { t: lat_root, normal: lat_normal }
        } else {
            Intersection::Miss
        }
    }

    /// Whether the cap hit point at distance `tp/tw` lies within the cap
    /// disc of center `center`, decided on cleared denominators.
    fn cap_radial(&self, r: &Ray, center: &Vec3, tp: i128, tw: i128) -> (b: bool)
        requires
            self.wf(),
            ray_ok(*r, CYL_DIR_MAX as int),
            vec_bounded(*center, COORD_MAX as int),
            -0xC00_0000 <= tp <= 0xC00_0000,
            0 <= tw <= 0x3000_0000,
        ensures
            b == cyl_cap_radial(*self, *r, *center, tp as int, tw as int),
    {
        proof {
            lemma_abs_mul(tw as int, (r.origin.x - center.x) as int, 0x3000_0000, 0x2000);
            lemma_abs_mul(tw as int, (r.origin.y - center.y) as int, 0x3000_0000, 0x2000);
            lemma_abs_mul(tw as int, (r.origin.z - center.z) as int, 0x3000_0000, 0x2000);
            lemma_abs_mul(tp as int, r.dr.x as int, 0xC00_0000, CYL_DIR_MAX as int);
            lemma_abs_mul(tp as int, r.dr.y as int, 0xC00_0000, CYL_DIR_MAX as int);
            lemma_abs_mul(tp as int, r.dr.z as int, 0xC00_0000, CYL_DIR_MAX as int);
        }
        let ux: i128 = tw * (r.origin.x - center.x) + tp * r.dr.x;
        let uy: i128 = tw * (r.origin.y - center.y) + tp * r.dr.y;
        let uz: i128 = tw * (r.origin.z - center.z) + tp * r.dr.z;
        proof {
            lemma_abs_mul(ux as int, ux as int, 0x1_0000_0000_0000, 0x1_0000_0000_0000);
            lemma_abs_mul(uy as int, uy as int, 0x1_0000_0000_0000, 0x1_0000_0000_0000);
            lemma_abs_mul(uz as int, uz as int, 0x1_0000_0000_0000, 0x1_0000_0000_0000);
            lemma_abs_mul(self.r as int, self.r as int, COORD_MAX as int, COORD_MAX as int);
            lemma_abs_mul(tw as int, tw as int, 0x3000_0000, 0x3000_0000);
            lemma_abs_mul((self.r as int) * (self.r as int), (tw as int) * (tw as int), 0x100_0000,
                0x900_0000_0000_0000);
        }
        ux * ux + uy * uy + uz * uz <= (self.r * self.r) * (tw * tw)
    }
}

/// A ray running parallel to the axis, through the center of the top cap,
/// from a point `q` axis-lengths above it and heading down (`dr == m * A`
/// with `m < 0`), hits the top cap: the hit distance is exactly the axial
/// distance `-q/m` (as the fraction `q*aa / (-m*aa)`) and the normal is the
/// cap normal oriented against the ray, here `+A`.
pub proof fn lemma_axis_ray_hits_top_cap(c: Cilinder, r: Ray, q: int, m: int, out: Intersection)
    requires
        c.wf(),
        q > 0,
        m < 0,
        r.origin.x == c.ct.x + q * (c.ct.x - c.cb.x),
        r.origin.y == c.ct.y + q * (c.ct.y - c.cb.y),
        r.origin.z == c.ct.z + q * (c.ct.z - c.cb.z),
        r.dr.x == m * (c.ct.x - c.cb.x),
        r.dr.y == m * (c.ct.y - c.cb.y),
        r.dr.z == m * (c.ct.z - c.cb.z),
        cyl_post(c, r, out),
    ensures
        out matches Intersection::Hit { t, normal } ==> {
            &&& t.p == q * cyl_aa(c)
            &&& t.e == 0
            &&& t.sq == 0
            &&& t.w == -m * cyl_aa(c)
            &&& normal.base.x == c.ct.x - c.cb.x
            &&& normal.base.y == c.ct.y - c.cb.y
            &&& normal.base.z == c.ct.z - c.cb.z
            &&& normal.slope == (Vec3 { x: 0, y: 0, z: 0 })
        },
        out matches Intersection::Hit { t, normal },
{
    let ax = c.ct.x - c.cb.x;
    let ay = c.ct.y - c.cb.y;
    let az = c.ct.z - c.cb.z;
    let aa = cyl_aa(c);
    // The axis is nonzero, so aa >= 1.
    crate::num::lemma_sq_nonneg(ax);
    crate::num::lemma_sq_nonneg(ay);
    crate::num::lemma_sq_nonneg(az);
    assert(aa >= 1);
    // Axial quantities of this ray.
    assert(cyl_delta(c, r) == m * aa) by (nonlinear_arith)
        requires
            cyl_delta(c, r) == m * ax * ax + m * ay * ay + m * az * az,
            aa == ax * ax + ay * ay + az * az,
    ;
    assert(m * aa <= -1) by (nonlinear_arith)
        requires
            m <= -1,
            aa >= 1,
    ;
    assert(cyl_topn(c, r) == q * aa) by (nonlinear_arith)
        requires
            cyl_topn(c, r) == ax * (q * ax) + ay * (q * ay) + az * (q * az),
            aa == ax * ax + ay * ay + az * az,
    ;
    assert(q * aa >= 1) by (nonlinear_arith)
        requires
            q >= 1,
            aa >= 1,
    ;
    // The ray is parallel to the axis, so the lateral quadratic degenerates.
    assert((m * ax) * (m * ax) == (m * m) * (ax * ax)) by (nonlinear_arith);
    assert((m * ay) * (m * ay) == (m * m) * (ay * ay)) by (nonlinear_arith);
    assert((m * az) * (m * az) == (m * m) * (az * az)) by (nonlinear_arith);
    assert((m * m) * aa == (m * m) * (ax * ax) + (m * m) * (ay * ay) + (m * m) * (az * az))
        by (nonlinear_arith)
        requires
            aa == ax * ax + ay * ay + az * az,
    ;
    assert(dot3(r.dr, r.dr) == (m * m) * aa);
    assert(cyl_la(c, r) == 0) by (nonlinear_arith)
        requires
            cyl_la(c, r) == aa * ((m * m) * aa) - (m * aa) * (m * aa),
    ;
    assert(cyl_lat_choice(c, r) == 0);
    // The top cap is hit dead center: the radial offset is exactly zero.
    let tp = cyl_top_tp(c, r);
    let tw = cyl_cap_tw(c, r);
    assert(tp == q * aa && tw == -(m * aa));
    assert(cyl_cap_radial(c, r, c.ct, tp, tw)) by (nonlinear_arith)
        requires
            tp == q * aa,
            tw == -(m * aa),
            r.origin.x - c.ct.x == q * ax,
            r.origin.y - c.ct.y == q * ay,
            r.origin.z - c.ct.z == q * az,
            r.dr.x == m * ax,
            r.dr.y == m * ay,
            r.dr.z == m * az,
            c.r >= 1,
            cyl_cap_radial(c, r, c.ct, tp, tw) == (((tw * (r.origin.x - c.ct.x) + tp * r.dr.x) * (
            tw * (r.origin.x - c.ct.x) + tp * r.dr.x) + (tw * (r.origin.y - c.ct.y) + tp * r.dr.y)
                * (tw * (r.origin.y - c.ct.y) + tp * r.dr.y) + (tw * (r.origin.z - c.ct.z) + tp
                * r.dr.z) * (tw * (r.origin.z - c.ct.z) + tp * r.dr.z)) <= (c.r * c.r) * (tw * tw)),
    ;
    assert(cyl_top_accept(c, r));
    // The base cap lies one axis length farther along the ray: rejected.
    assert(ax * (q * ax + ax) == (q + 1) * (ax * ax)) by (nonlinear_arith);
    assert(ay * (q * ay + ay) == (q + 1) * (ay * ay)) by (nonlinear_arith);
    assert(az * (q * az + az) == (q + 1) * (az * az)) by (nonlinear_arith);
    assert((q + 1) * aa == (q + 1) * (ax * ax) + (q + 1) * (ay * ay) + (q + 1) * (az * az))
        by (nonlinear_arith)
        requires
            aa == ax * ax + ay * ay + az * az,
    ;
    assert(cyl_gamma(c, r) == (q + 1) * aa);
    let bp = cyl_base_tp(c, r);
    assert(bp == (q + 1) * aa);
    assert(bp * tw - tp * tw >= 0 && !(bp * tw - tp * tw < 0)) by (nonlinear_arith)
        requires
            bp == (q + 1) * aa,
            tp == q * aa,
            tw >= 1,
            aa >= 1,
    ;
    assert(!rat_lt_surd(bp, tw, tp, 0, 0, tw));
    assert(!cyl_base_accept(c, r));
    assert(-(m * aa) == -m * aa) by (nonlinear_arith);
}

/// Binomial expansion of one component of the projected direction:
/// `(k*d - l*a)^2 == k^2 d^2 - 2 (k l)(d a) + l^2 a^2`.
proof fn lemma_scaled_binomial(k: int, l: int, d: int, a: int)
    ensures
        (k * d - l * a) * (k * d - l * a) == (k * k) * (d * d) - 2 * ((k * l) * (d * a)) + (l * l)
            * (a * a),
{
    let u = k * d;
    let v = l * a;
    assert((u - v) * (u - v) == u * u - 2 * (u * v) + v * v) by (nonlinear_arith);
    assert(u * u == (k * k) * (d * d)) by (nonlinear_arith)
        requires
            u == k * d,
    ;
    assert(u * v == (k * l) * (d * a)) by (nonlinear_arith)
        requires
            u == k * d,
            v == l * a,
    ;
    assert(v * v == (l * l) * (a * a)) by (nonlinear_arith)
        requires
            v == l * a,
    ;
}

/// The scaled leading coefficient is the squared norm of the ray direction's
/// axis-orthogonal component: with `M = (A.A) I - A (x) A` (the orthogonal
/// projector scaled by `A.A`), `(A.A) * cyl_la == |M dr|^2`. In particular
/// `cyl_la` is never negative, and is zero exactly for a ray parallel to the
/// axis.
#[verifier::rlimit(60)]
pub proof fn lemma_lateral_coeff_is_projected_norm(c: Cilinder, r: Ray)
    requires
        c.wf(),
    ensures
        cyl_aa(c) * cyl_la(c, r) == (cyl_aa(c) * r.dr.x - cyl_delta(c, r) * (c.ct.x - c.cb.x)) * (
        cyl_aa(c) * r.dr.x - cyl_delta(c, r) * (c.ct.x - c.cb.x)) + (cyl_aa(c) * r.dr.y
            - cyl_delta(c, r) * (c.ct.y - c.cb.y)) * (cyl_aa(c) * r.dr.y - cyl_delta(c, r) * (
        c.ct.y - c.cb.y)) + (cyl_aa(c) * r.dr.z - cyl_delta(c, r) * (c.ct.z - c.cb.z)) * (cyl_aa(c)
            * r.dr.z - cyl_delta(c, r) * (c.ct.z - c.cb.z)),
        cyl_la(c, r) >= 0,
{
    let ax = c.ct.x - c.cb.x;
    let ay = c.ct.y - c.cb.y;
    let az = c.ct.z - c.cb.z;
    let dx = r.dr.x as int;
    let dy = r.dr.y as int;
    let dz = r.dr.z as int;
    let aa = cyl_aa(c);
    let dl = cyl_delta(c, r);
    let sx = aa * dx - dl * ax;
    let sy = aa * dy - dl * ay;
    let sz = aa * dz - dl * az;
    lemma_scaled_binomial(aa, dl, dx, ax);
    lemma_scaled_binomial(aa, dl, dy, ay);
    lemma_scaled_binomial(aa, dl, dz, az);
    assert((aa * aa) * (dx * dx) + (aa * aa) * (dy * dy) + (aa * aa) * (dz * dz) == (aa * aa)
        * dot3(r.dr, r.dr)) by (nonlinear_arith)
        requires
            dot3(r.dr, r.dr) == dx * dx + dy * dy + dz * dz,
    ;
    assert((aa * dl) * (dx * ax) + (aa * dl) * (dy * ay) + (aa * dl) * (dz * az) == (aa * dl) * dl)
        by (nonlinear_arith)
        requires
            dl == dx * ax + dy * ay + dz * az,
    ;
    assert((dl * dl) * (ax * ax) + (dl * dl) * (ay * ay) + (dl * dl) * (az * az) == (dl * dl) * aa)
        by (nonlinear_arith)
        requires
            aa == ax * ax + ay * ay + az * az,
    ;
    assert((aa * aa) * dot3(r.dr, r.dr) - 2 * ((aa * dl) * dl) + (dl * dl) * aa == aa * cyl_la(c,
    r)) by (nonlinear_arith)
        requires
            cyl_la(c, r) == aa * dot3(r.dr, r.dr) - dl * dl,
    ;
    crate::num::lemma_sq_nonneg(ax);
    crate::num::lemma_sq_nonneg(ay);
    crate::num::lemma_sq_nonneg(az);
    crate::num::lemma_sq_nonneg(sx);
    crate::num::lemma_sq_nonneg(sy);
    crate::num::lemma_sq_nonneg(sz);
    assert(cyl_la(c, r) >= 0) by (nonlinear_arith)
        requires
            aa >= 1,
            aa * cyl_la(c, r) >= 0,
    ;
}

} // verus!


