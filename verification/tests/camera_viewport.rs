use raycast::vec::Vec3;
use raycast::camera::{Camera, Viewport};
use raycast::light::Light;
use raycast::scene::Scene;
use raycast::sphere::Sphere;
use raycast::material::Material;
use raycast::shape::Shape;

fn test_camera(cols: u32, rows: u32, w: i128, h: i128, d: i128) -> Camera {
    Camera::new(Vec3::new(0, 0, 0), cols, rows, w, h, d, Vec3::new(0, 0, 0))
}

fn test_scene(cx: i128, cy: i128, cz: i128, r: i128) -> Scene {
    let sphere = match Sphere::new(Vec3::new(cx, cy, cz), r, Material::new(Vec3::new(255, 0, 0))) {
        Some(Shape::Sphere(s)) => s,
        _ => panic!("sphere construction failed"),
    };
    let light = Light::new(Vec3::new(0, 10, 0), Vec3::new(255, 255, 255), 1);
    Scene::new(sphere, light)
}

#[test]
fn viewport_geometry_is_exact() {
    // 800x600 pixels over a 16x9 plane at distance 1, camera at the origin
    // facing -z. All stored geometry is scaled by 2*cols*rows = 960000.
    let v = Viewport::new(Vec3::new(0, 0, -1), 16, 9, 800, 600);
    assert_eq!(v.scale, 960_000);
    assert_eq!(v.dx, Vec3::new(19_200, 0, 0)); // width/cols = 16/800, scaled
    assert_eq!(v.dy, Vec3::new(0, 14_400, 0)); // height/rows = 9/600, scaled
    assert_eq!(v.top_left_coords, Vec3::new(-7_680_000, 4_320_000, -960_000));
    // p00 = top_left + dx/2 - dy/2, exactly.
    assert_eq!(v.p00_coords, Vec3::new(-7_670_400, 4_312_800, -960_000));
    for (p00, tl, dx, dy) in [
        (v.p00_coords.x, v.top_left_coords.x, v.dx.x, v.dy.x),
        (v.p00_coords.y, v.top_left_coords.y, v.dx.y, v.dy.y),
        (v.p00_coords.z, v.top_left_coords.z, v.dx.z, v.dy.z),
    ] {
        assert_eq!(2 * p00, 2 * tl + dx - dy);
    }
}

#[test]
fn sample_direction_steps_uniformly() {
    // Stepping from pixel (0,0) to (799,599) changes the direction by
    // exactly 799*dx - 599*dy.
    let cam = test_camera(800, 600, 16, 9, 1);
    let first = cam.sample(0, 0);
    let last = cam.sample(799, 599);
    let dx = cam.viewport.dx;
    let dy = cam.viewport.dy;
    assert_eq!(last.dr.x - first.dr.x, 799 * dx.x - 599 * dy.x);
    assert_eq!(last.dr.y - first.dr.y, 799 * dx.y - 599 * dy.y);
    assert_eq!(last.dr.z - first.dr.z, 799 * dx.z - 599 * dy.z);
    assert_eq!(first.origin, Vec3::new(0, 0, 0));
    // The axial component is -scale * distance: never zero.
    assert_eq!(first.dr.z, -960_000);
    assert_eq!(last.dr.z, -960_000);
}

#[test]
fn classify_paints_inner_pixels_foreground() {
    // Sphere of radius 2 at (0,0,-5), camera at the origin, 2x2 viewport on
    // a 4x4 grid at distance 1: the four innermost pixels see the sphere,
    // the twelve border pixels see the background.
    let cam = Camera::new(Vec3::new(0, 0, 0), 4, 4, 2, 2, 1, Vec3::new(7, 8, 9));
    let scene = test_scene(0, 0, -5, 2);
    for row in 0..4u32 {
        for col in 0..4u32 {
            let color = cam.classify(&scene, col, row);
            let inner = (1..=2).contains(&col) && (1..=2).contains(&row);
            if inner {
                assert_eq!(color, Vec3::new(255, 0, 0), "pixel ({col},{row})");
            } else {
                assert_eq!(color, Vec3::new(7, 8, 9), "pixel ({col},{row})");
            }
        }
    }
}

#[test]
fn classify_grazing_sphere_is_all_background() {
    // With radius 1 at distance 5 the sphere's angular radius is below the
    // half-pixel offset of this 4x4 grid: every sample ray misses.
    let cam = Camera::new(Vec3::new(0, 0, 0), 4, 4, 2, 2, 1, Vec3::new(7, 8, 9));
    let scene = test_scene(0, 0, -5, 1);
    for row in 0..4u32 {
        for col in 0..4u32 {
            assert_eq!(cam.classify(&scene, col, row), Vec3::new(7, 8, 9));
        }
    }
}

#[test]
fn camera_fields_are_as_built() {
    let cam = Camera::new(Vec3::new(1, 2, 3), 8, 6, 4, 3, 2, Vec3::new(9, 9, 9));
    assert_eq!(cam.pos, Vec3::new(1, 2, 3));
    assert_eq!(cam.bg_color, Vec3::new(9, 9, 9));
    assert_eq!(cam.viewport.pos, Vec3::new(1, 2, 1));
    assert_eq!(cam.viewport.cols, 8);
    assert_eq!(cam.viewport.rows, 6);
    assert_eq!(cam.viewport.width, 4);
    assert_eq!(cam.viewport.height, 3);
}

#[test]
fn light_scales_color_by_intensity() {
    let l = Light::new(Vec3::new(1, 2, 3), Vec3::new(10, 20, 30), 4);
    assert_eq!(l.pos, Vec3::new(1, 2, 3));
    assert_eq!(l.intensity, Vec3::new(40, 80, 120));
}

#[test]
fn scene_holds_its_parts() {
    let scene = test_scene(0, 0, -5, 1);
    assert_eq!(scene.sphere.radius, 1);
    assert_eq!(scene.sphere.center, Vec3::new(0, 0, -5));
    assert_eq!(scene.light.pos, Vec3::new(0, 10, 0));
}
