use raycast::vec::Vec3;
use raycast::ray::Ray;
use raycast::root::{Root, root_is_positive, root_eq_rat_ex, rat_lt_root_ex};
use raycast::material::Material;
use raycast::shape::{Shape, Intersection, SurfaceDir};
use raycast::sphere::Sphere;
use raycast::plane::Plane;
use raycast::cilinder::Cilinder;

fn mat(r: i128, g: i128, b: i128) -> Material {
    Material::new(Vec3::new(r, g, b))
}

fn sphere(cx: i128, cy: i128, cz: i128, r: i128) -> Sphere {
    match Sphere::new(Vec3::new(cx, cy, cz), r, mat(255, 0, 0)) {
        Some(Shape::Sphere(s)) => s,
        _ => panic!("sphere construction failed"),
    }
}

fn cylinder(r: i128, cb: Vec3, ct: Vec3) -> Cilinder {
    match Cilinder::new(r, cb, ct, mat(0, 255, 0)) {
        Some(Shape::Cilinder(c)) => c,
        _ => panic!("cylinder construction failed"),
    }
}

#[test]
fn sphere_ray_through_center_hits_at_exact_distance() {
    let s = sphere(0, 0, -5, 1);
    let ray = Ray::new(Vec3::new(0, 0, 0), Vec3::new(0, 0, -1));
    match s.intersects(&ray) {
        Intersection::Hit { t, normal } => {
            // a = 1, b = -10, disc = 100 - 96 = 4; smaller root (10 - 2)/2 = 4.
            assert_eq!(t, Root { p: 10, e: -1, sq: 4, w: 2 });
            assert!(root_eq_rat_ex(&t, 4, 1));
            assert!(root_is_positive(&t));
            // Normal direction: (origin - center) + t * dr = hit - center.
            assert_eq!(normal.base, Vec3::new(0, 0, 5));
            assert_eq!(normal.slope, Vec3::new(0, 0, -1));
            // At t = 4 the normal is (0,0,1): unit length and outward.
            assert_eq!(normal.at(4), Vec3::new(0, 0, 1));
        },
        Intersection::Miss => panic!("expected a hit"),
    }
}

#[test]
fn sphere_ray_pointing_away_misses() {
    let s = sphere(0, 0, -5, 1);
    let ray = Ray::new(Vec3::new(0, 0, 0), Vec3::new(0, 0, 1));
    assert_eq!(s.intersects(&ray), Intersection::Miss);
}

#[test]
fn sphere_tangent_ray_is_a_miss() {
    // Ray grazes the sphere: discriminant exactly zero, deliberately a miss.
    let s = sphere(0, 0, -5, 1);
    let ray = Ray::new(Vec3::new(0, 1, 0), Vec3::new(0, 0, -1));
    assert_eq!(s.intersects(&ray), Intersection::Miss);
}

#[test]
fn sphere_behind_origin_is_a_miss() {
    // Both roots negative: the sphere is behind the observer.
    let s = sphere(0, 0, 5, 1);
    let ray = Ray::new(Vec3::new(0, 0, 0), Vec3::new(0, 0, -1));
    assert_eq!(s.intersects(&ray), Intersection::Miss);
}

#[test]
fn sphere_new_rejects_nonpositive_radius() {
    assert!(Sphere::new(Vec3::new(0, 0, 0), 0, mat(0, 0, 0)).is_none());
    assert!(Sphere::new(Vec3::new(0, 0, 0), -3, mat(0, 0, 0)).is_none());
    assert!(Sphere::new(Vec3::new(0, 0, 0), 1, mat(0, 0, 0)).is_some());
    assert!(Sphere::new(Vec3::new(0, 0, 9999), 1, mat(0, 0, 0)).is_none());
}

#[test]
fn intersections_are_pure() {
    // Identical inputs give identical outputs on repeated invocation.
    let s = sphere(1, 2, -7, 3);
    let ray = Ray::new(Vec3::new(0, 1, 4), Vec3::new(1, -1, -9));
    let first = s.intersects(&ray);
    let second = s.intersects(&ray);
    assert_eq!(first, second);
    let pl = Plane::new(Vec3::new(0, -2, 0), Vec3::new(1, 3, -2), mat(9, 9, 9));
    let ray2 = Ray::new(Vec3::new(5, 0, 1), Vec3::new(-2, 1, 1));
    assert_eq!(pl.intersects(&ray2), pl.intersects(&ray2));
}

#[test]
fn plane_parallel_ray_misses_from_any_origin() {
    let pl = match Plane::new(Vec3::new(0, 0, -3), Vec3::new(0, 1, 0), mat(9, 9, 9)) {
        Shape::Plane(p) => p,
        _ => panic!("expected a plane"),
    };
    let d = Vec3::new(1, 0, 2);
    for origin in [Vec3::new(0, 0, 0), Vec3::new(7, -4, 2), Vec3::new(-100, 55, 3)] {
        assert_eq!(pl.intersects(&Ray::new(origin, d)), Intersection::Miss);
    }
}

#[test]
fn plane_hit_has_exact_rational_distance_and_fixed_normal() {
    let pl = match Plane::new(Vec3::new(0, 0, 0), Vec3::new(0, 0, 1), mat(9, 9, 9)) {
        Shape::Plane(p) => p,
        _ => panic!("expected a plane"),
    };
    let ray = Ray::new(Vec3::new(0, 0, 5), Vec3::new(0, 0, -1));
    match pl.intersects(&ray) {
        Intersection::Hit { t, normal } => {
            assert_eq!(t, Root { p: 5, e: 0, sq: 0, w: 1 });
            assert!(root_eq_rat_ex(&t, 5, 1));
            // The plane's own normal comes back, not reoriented.
            assert_eq!(normal.base, Vec3::new(0, 0, 1));
            assert_eq!(normal.slope, Vec3::new(0, 0, 0));
        },
        Intersection::Miss => panic!("expected a hit"),
    }
}

#[test]
fn plane_behind_origin_returns_negative_distance() {
    // The plane test does not pre-filter the sign of t: consumers reject it.
    let pl = match Plane::new(Vec3::new(0, 0, 0), Vec3::new(0, 0, 1), mat(9, 9, 9)) {
        Shape::Plane(p) => p,
        _ => panic!("expected a plane"),
    };
    let ray = Ray::new(Vec3::new(0, 0, -3), Vec3::new(0, 0, -1));
    match pl.intersects(&ray) {
        Intersection::Hit { t, .. } => {
            assert_eq!(t, Root { p: -3, e: 0, sq: 0, w: 1 });
            assert!(!root_is_positive(&t));
        },
        Intersection::Miss => panic!("expected a (backward) hit"),
    }
}

#[test]
fn cylinder_axis_ray_hits_top_cap_center() {
    // Ray along the axis through the top cap center, one axis length above:
    // hits the top cap at the axial distance, normal against the ray.
    let c = cylinder(2, Vec3::new(0, 0, 0), Vec3::new(0, 0, 4));
    let ray = Ray::new(Vec3::new(0, 0, 8), Vec3::new(0, 0, -4));
    match c.intersects(&ray) {
        Intersection::Hit { t, normal } => {
            // aa = 16, q = 1, m = -1: t = (16 + 0)/16 = 1.
            assert_eq!(t, Root { p: 16, e: 0, sq: 0, w: 16 });
            assert!(root_eq_rat_ex(&t, 1, 1));
            assert_eq!(normal.base, Vec3::new(0, 0, 4));
            assert_eq!(normal.slope, Vec3::new(0, 0, 0));
        },
        Intersection::Miss => panic!("expected a top-cap hit"),
    }
}

#[test]
fn cylinder_lateral_hit_with_exact_root_and_normal() {
    let c = cylinder(1, Vec3::new(0, -2, -5), Vec3::new(0, 2, -5));
    let ray = Ray::new(Vec3::new(0, 0, 0), Vec3::new(0, 0, -1));
    match c.intersects(&ray) {
        Intersection::Hit { t, normal } => {
            // Scaled quadratic: la = 16, lb = -160, lc = 384, disc = 1024;
            // smaller root (160 - 32)/32 = 4.
            assert_eq!(t, Root { p: 160, e: -1, sq: 1024, w: 32 });
            assert!(root_eq_rat_ex(&t, 4, 1));
            assert_eq!(normal.base, Vec3::new(0, 0, 80));
            assert_eq!(normal.slope, Vec3::new(0, 0, -16));
            // At t = 4 the direction is (0, 0, 16): back toward the observer.
            assert_eq!(normal.at(4), Vec3::new(0, 0, 16));
        },
        Intersection::Miss => panic!("expected a lateral hit"),
    }
}

#[test]
fn cylinder_axis_ray_outside_radius_misses() {
    let c = cylinder(1, Vec3::new(0, 0, 0), Vec3::new(0, 0, 4));
    let ray = Ray::new(Vec3::new(3, 0, 8), Vec3::new(0, 0, -4));
    assert_eq!(c.intersects(&ray), Intersection::Miss);
}

#[test]
fn cylinder_hit_beyond_height_band_misses() {
    // The ray crosses the infinite cylinder above the top cap: every lateral
    // root is rejected by the axial band, and the caps are parallel.
    let c = cylinder(1, Vec3::new(0, 0, 0), Vec3::new(0, 4, 0));
    let ray = Ray::new(Vec3::new(5, 10, 0), Vec3::new(-1, 0, 0));
    assert_eq!(c.intersects(&ray), Intersection::Miss);
}

#[test]
fn cylinder_new_rejects_bad_parameters() {
    let m = mat(0, 0, 0);
    assert!(Cilinder::new(0, Vec3::new(0, 0, 0), Vec3::new(0, 0, 4), m).is_none());
    assert!(Cilinder::new(-1, Vec3::new(0, 0, 0), Vec3::new(0, 0, 4), m).is_none());
    assert!(Cilinder::new(2, Vec3::new(1, 1, 1), Vec3::new(1, 1, 1), m).is_none());
    assert!(Cilinder::new(2, Vec3::new(0, 0, 0), Vec3::new(0, 0, 4), m).is_some());
}

#[test]
fn shape_dispatch_reports_material_and_hits() {
    let sh = Sphere::new(Vec3::new(0, 0, -5), 1, mat(10, 20, 30)).unwrap();
    assert_eq!(sh.material().color, Vec3::new(10, 20, 30));
    let ray = Ray::new(Vec3::new(0, 0, 0), Vec3::new(0, 0, -1));
    match sh.intersects(&ray) {
        Intersection::Hit { t, .. } => assert!(root_eq_rat_ex(&t, 4, 1)),
        Intersection::Miss => panic!("expected a hit through dispatch"),
    }
}

#[test]
fn root_comparisons_are_exact() {
    // sqrt(2) lies strictly between 1 and 3/2.
    let r2 = Root { p: 0, e: 1, sq: 2, w: 1 };
    assert!(rat_lt_root_ex(1, 1, &r2));
    assert!(!rat_lt_root_ex(3, 2, &r2));
    assert!(root_is_positive(&r2));
    // 2 - sqrt(4) is exactly zero: not positive.
    let z = Root { p: 2, e: -1, sq: 4, w: 3 };
    assert!(!root_is_positive(&z));
    assert!(root_eq_rat_ex(&z, 0, 1));
}

#[test]
fn surface_dir_evaluates_affinely() {
    let sd = SurfaceDir { base: Vec3::new(1, 2, 3), slope: Vec3::new(-1, 0, 2) };
    assert_eq!(sd.at(0), Vec3::new(1, 2, 3));
    assert_eq!(sd.at(5), Vec3::new(-4, 2, 13));
}

#[test]
fn shape_dispatch_covers_every_variant() {
    let ray = Ray::new(Vec3::new(0, 0, 5), Vec3::new(0, 0, -1));
    let pl = Plane::new(Vec3::new(0, 0, 0), Vec3::new(0, 0, 1), mat(1, 2, 3));
    match pl.intersects(&ray) {
        Intersection::Hit { t, .. } => assert!(root_eq_rat_ex(&t, 5, 1)),
        Intersection::Miss => panic!("expected a plane hit"),
    }
    let cy = Cilinder::new(2, Vec3::new(0, 0, 0), Vec3::new(0, 0, 4), mat(4, 5, 6)).unwrap();
    assert_eq!(cy.material().color, Vec3::new(4, 5, 6));
    match cy.intersects(&Ray::new(Vec3::new(0, 0, 8), Vec3::new(0, 0, -4))) {
        Intersection::Hit { t, .. } => assert!(root_eq_rat_ex(&t, 1, 1)),
        Intersection::Miss => panic!("expected a cap hit"),
    }
}
