//! Camera and viewport: the sampling grid that turns pixel coordinates into
//! rays, and the per-pixel classification against the scene.
//!
//! Pixel geometry is rational (the per-pixel steps are `width/cols` and
//! `height/rows`), so the viewport clears all denominators with the fixed
//! even scale `2 * cols * rows`: the stored step vectors and sample points
//! are the true ones multiplied by that scale, exactly. A sample ray's
//! direction is likewise the true direction scaled, which is the same ray.

use vstd::prelude::*;
use crate::vec::{Vec3, vec_bounded, is_zero3, COORD_MAX};
use crate::ray::{Ray, ray_ok};
use crate::scene::Scene;
use crate::sphere::{Sphere, sphere_miss, SPHERE_DIR_MAX};
use crate::shape::Intersection;
use crate::num::lemma_abs_mul;

verus! {

/// Largest pixel-grid side accepted by the viewport.
pub const GRID_MAX: u32 = 1024;

/// The image plane the observer looks through: its center `pos`, physical
/// size, pixel grid, and the derived per-pixel sampling data, all scaled by
/// `scale == 2 * cols * rows` so that they are exact integers.
#[derive(Clone, Copy, PartialEq, Eq, Structural, Debug)]
pub struct Viewport {
    pub pos: Vec3,
    pub width: i128,
    pub height: i128,
    pub cols: u32,
    pub rows: u32,
    pub scale: i128,
    pub dx: Vec3,
    pub dy: Vec3,
    pub top_left_coords: Vec3,
    pub p00_coords: Vec3,
}

impl Viewport {
    /// The derived fields are exactly the scaled versions of the usual
    /// viewport geometry: `dx = (width/cols, 0, 0)`, `dy = (0, height/rows, 0)`,
    /// `top_left = pos + (-width/2, height/2, 0)`, and
    /// `p00 = top_left + dx/2 - dy/2` (the center of pixel (0,0)).
    pub open spec fn wf(self) -> bool {
        &&& 1 <= self.cols <= GRID_MAX
        &&& 1 <= self.rows <= GRID_MAX
        &&& 1 <= self.width <= COORD_MAX
        &&& 1 <= self.height <= COORD_MAX
        &&& vec_bounded(self.pos, 2 * COORD_MAX as int)
        &&& self.scale == 2 * (self.cols as int) * (self.rows as int)
        &&& self.dx.x == 2 * (self.rows as int) * self.width
        &&& self.dx.y == 0
        &&& self.dx.z == 0
        &&& self.dy.x == 0
        &&& self.dy.y == 2 * (self.cols as int) * self.height
        &&& self.dy.z == 0
        &&& self.top_left_coords.x == self.scale * self.pos.x - (self.cols as int) * (
        self.rows as int) * self.width
        &&& self.top_left_coords.y == self.scale * self.pos.y + (self.cols as int) * (
        self.rows as int) * self.height
        &&& self.top_left_coords.z == self.scale * self.pos.z
        &&& self.p00_coords.x == self.top_left_coords.x + (self.rows as int) * self.width
        &&& self.p00_coords.y == self.top_left_coords.y - (self.cols as int) * self.height
        &&& self.p00_coords.z == self.top_left_coords.z
    }

    /// Builds the sampling grid from the plane center, its physical size and
    /// the pixel counts. All derived data is exact (scaled) integer geometry.
    pub fn new(pos: Vec3, width: i128, height: i128, cols: u32, rows: u32) -> (v: Viewport)
        requires
            1 <= cols <= GRID_MAX,
            1 <= rows <= GRID_MAX,
            1 <= width <= COORD_MAX,
            1 <= height <= COORD_MAX,
            vec_bounded(pos, 2 * COORD_MAX as int),
        ensures
            v.wf(),
            v.pos == pos,
            v.width == width,
            v.height == height,
            v.cols == cols,
            v.rows == rows,
    {
        let ci: i128 = cols as i128;
        let ri: i128 = rows as i128;
        proof {
            lemma_abs_mul(ci as int, ri as int, GRID_MAX as int, GRID_MAX as int);
            lemma_abs_mul(ri as int, width as int, GRID_MAX as int, COORD_MAX as int);
            lemma_abs_mul(ci as int, height as int, GRID_MAX as int, COORD_MAX as int);
            lemma_abs_mul((ci * ri) as int, width as int, 0x10_0000, COORD_MAX as int);
            lemma_abs_mul((ci * ri) as int, height as int, 0x10_0000, COORD_MAX as int);
            lemma_abs_mul((2 * (ci * ri)) as int, pos.x as int, 0x20_0000, 2 * COORD_MAX as int);
            lemma_abs_mul((2 * (ci * ri)) as int, pos.y as int, 0x20_0000, 2 * COORD_MAX as int);
            lemma_abs_mul((2 * (ci * ri)) as int, pos.z as int, 0x20_0000, 2 * COORD_MAX as int);
        }
        let scale: i128 = 2 * (ci * ri);
        let crw: i128 = (ci * ri) * width;
        let crh: i128 = (ci * ri) * height;
        let top_left_coords = Vec3 {
            x: scale * pos.x - crw,
            y: scale * pos.y + crh,
            z: scale * pos.z,
        };
        let p00_coords = Vec3 {
            x: top_left_coords.x + ri * width,
            y: top_left_coords.y - ci * height,
            z: top_left_coords.z,
        };
        let v = Viewport {
            pos,
            width,
            height,
            cols,
            rows,
            scale,
            dx: Vec3 { x: 2 * (ri * width), y: 0, z: 0 },
            dy: Vec3 { x: 0, y: 2 * (ci * height), z: 0 },
            top_left_coords,
            p00_coords,
        };
        assert(v.scale == 2 * (v.cols as int) * (v.rows as int)) by (nonlinear_arith)
            requires
                v.scale == 2 * ((v.cols as int) * (v.rows as int)),
        ;
        assert(v.dx.x == 2 * (v.rows as int) * v.width && v.dy.y == 2 * (v.cols as int) * v.height)
            by (nonlinear_arith)
            requires
                v.dx.x == 2 * ((v.rows as int) * (v.width as int)),
                v.dy.y == 2 * ((v.cols as int) * (v.height as int)),
        ;
        assert(v.top_left_coords.x == v.scale * v.pos.x - (v.cols as int) * (v.rows as int)
            * v.width && v.top_left_coords.y == v.scale * v.pos.y + (v.cols as int) * (
        v.rows as int) * v.height) by (nonlinear_arith)
            requires
                v.top_left_coords.x == v.scale * v.pos.x - ((v.cols as int) * (v.rows as int)) * (
                v.width as int),
                v.top_left_coords.y == v.scale * v.pos.y + ((v.cols as int) * (v.rows as int)) * (
                v.height as int),
        ;
        v
    }
}

/// Scaled direction of the sample ray for pixel (col, row), x component:
/// `p00 + col*dx - row*dy - scale*pos`, all in scaled coordinates.
pub open spec fn sample_dir_x(cam: Camera, col: int, row: int) -> int {
    cam.viewport.p00_coords.x + col * cam.viewport.dx.x - row * cam.viewport.dy.x
        - cam.viewport.scale * cam.pos.x
}

/// Scaled sample direction, y component.
pub open spec fn sample_dir_y(cam: Camera, col: int, row: int) -> int {
    cam.viewport.p00_coords.y + col * cam.viewport.dx.y - row * cam.viewport.dy.y
        - cam.viewport.scale * cam.pos.y
}

/// Scaled sample direction, z component.
pub open spec fn sample_dir_z(cam: Camera, col: int, row: int) -> int {
    cam.viewport.p00_coords.z + col * cam.viewport.dx.z - row * cam.viewport.dy.z
        - cam.viewport.scale * cam.pos.z
}

/// The sample ray of pixel (col, row) meets the scene's sphere in front of
/// the observer: the pixel is painted with the sphere's color rather than
/// the background.
pub open spec fn foreground(cam: Camera, s: Sphere, col: int, row: int) -> bool {
    !sphere_miss(
        s,
        Ray {
            origin: cam.pos,
            dr: Vec3 {
                x: sample_dir_x(cam, col, row) as i128,
                y: sample_dir_y(cam, col, row) as i128,
                z: sample_dir_z(cam, col, row) as i128,
            },
        },
    )
}

/// The observer: its position, the background color, and the viewport it
/// looks through. Immutable after construction.
#[derive(Clone, Copy, PartialEq, Eq, Structural, Debug)]
pub struct Camera {
    pub pos: Vec3,
    pub bg_color: Vec3,
    pub viewport: Viewport,
}

impl Camera {
    /// A camera is sound when its viewport is, sits straight under the
    /// observer on the view axis (no rotation), and lies strictly in front
    /// of it along -z.
    pub open spec fn wf(self) -> bool {
        &&& vec_bounded(self.pos, COORD_MAX as int)
        &&& self.viewport.wf()
        &&& self.viewport.pos.x == self.pos.x
        &&& self.viewport.pos.y == self.pos.y
        &&& self.pos.z - COORD_MAX <= self.viewport.pos.z <= self.pos.z - 1
    }

    /// Builds the camera at `pos` looking along -z through a viewport of the
    /// given physical size and pixel grid, placed `viewport_distance` in
    /// front of the observer.
    pub fn new(pos: Vec3, n_cols: u32, n_rows: u32, viewport_w: i128, viewport_h: i128,
        viewport_distance: i128, bg_color: Vec3) -> (cam: Camera)
        requires
            vec_bounded(pos, COORD_MAX as int),
            1 <= n_cols <= GRID_MAX,
            1 <= n_rows <= GRID_MAX,
            1 <= viewport_w <= COORD_MAX,
            1 <= viewport_h <= COORD_MAX,
            1 <= viewport_distance <= COORD_MAX,
        ensures
            cam.wf(),
            cam.pos == pos,
            cam.bg_color == bg_color,
            cam.viewport.width == viewport_w,
            cam.viewport.height == viewport_h,
            cam.viewport.cols == n_cols,
            cam.viewport.rows == n_rows,
            cam.viewport.pos.x == pos.x && cam.viewport.pos.y == pos.y && cam.viewport.pos.z == pos.z
                - viewport_distance,
    {
        Camera {
            pos,
            bg_color,
            viewport: Viewport::new(
                Vec3 { x: pos.x, y: pos.y, z: pos.z - viewport_distance },
                viewport_w,
                viewport_h,
                n_cols,
                n_rows,
            ),
        }
    }

    /// The sample ray of pixel (col, row): origin at the observer, direction
    /// the (scaled) vector from the observer to the center of the pixel's
    /// cell on the image plane. The direction is never zero: its z component
    /// is `-scale * distance`.
    pub fn sample(&self, col: u32, row: u32) -> (ray: Ray)
        requires
            self.wf(),
            col < self.viewport.cols,
            row < self.viewport.rows,
        ensures
            ray.origin == self.pos,
            ray.dr.x == sample_dir_x(*self, col as int, row as int),
            ray.dr.y == sample_dir_y(*self, col as int, row as int),
            ray.dr.z == sample_dir_z(*self, col as int, row as int),
            vec_bounded(ray.dr, SPHERE_DIR_MAX as int),
            !is_zero3(ray.dr),
            ray_ok(ray, SPHERE_DIR_MAX as int),
    {
        let ci: i128 = col as i128;
        let ri: i128 = row as i128;
        let vp = &self.viewport;
        proof {
            assert(2 <= vp.scale <= 0x20_0000 && -0x80_0000_0000 <= vp.dx.x <= 0x80_0000_0000 && 0
                <= vp.dy.y <= 0x80_0000_0000 && -0x8_0000_0000 <= vp.top_left_coords.x
                <= 0x8_0000_0000 && -0x8_0000_0000 <= vp.top_left_coords.y
                <= 0x8_0000_0000 && -0x8_0000_0000 <= vp.top_left_coords.z
                <= 0x8_0000_0000 && -0x2_0000_0000 <= vp.scale * self.pos.x
                <= 0x2_0000_0000 && -0x2_0000_0000 <= vp.scale * self.pos.y <= 0x2_0000_0000
                && -0x2_0000_0000 <= vp.scale * self.pos.z <= 0x2_0000_0000 && -0x2_0000_0000
                <= (ci as int) * vp.dx.x <= 0x2_0000_0000 && -0x2_0000_0000 <= (ri as int)
                * vp.dy.y <= 0x2_0000_0000) by (nonlinear_arith)
                requires
                    vp.scale == 2 * (vp.cols as int) * (vp.rows as int),
                    vp.dx.x == 2 * (vp.rows as int) * vp.width,
                    vp.dy.y == 2 * (vp.cols as int) * vp.height,
                    vp.top_left_coords.x == vp.scale * vp.pos.x - (vp.cols as int) * (
                    vp.rows as int) * vp.width,
                    vp.top_left_coords.y == vp.scale * vp.pos.y + (vp.cols as int) * (
                    vp.rows as int) * vp.height,
                    vp.top_left_coords.z == vp.scale * vp.pos.z,
                    1 <= vp.cols <= GRID_MAX,
                    1 <= vp.rows <= GRID_MAX,
                    1 <= vp.width <= COORD_MAX,
                    1 <= vp.height <= COORD_MAX,
                    vec_bounded(vp.pos, 2 * COORD_MAX as int),
                    vec_bounded(self.pos, COORD_MAX as int),
                    0 <= ci <= GRID_MAX,
                    0 <= ri <= GRID_MAX,
            ;
            lemma_abs_mul(vp.rows as int, vp.width as int, GRID_MAX as int, COORD_MAX as int);
            lemma_abs_mul(vp.cols as int, vp.height as int, GRID_MAX as int, COORD_MAX as int);
        }
        let dr = Vec3 {
            x: vp.p00_coords.x + ci * vp.dx.x - ri * vp.dy.x - vp.scale * self.pos.x,
            y: vp.p00_coords.y + ci * vp.dx.y - ri * vp.dy.y - vp.scale * self.pos.y,
            z: vp.p00_coords.z + ci * vp.dx.z - ri * vp.dy.z - vp.scale * self.pos.z,
        };
        proof {
            assert(dr.z == vp.scale * vp.pos.z - vp.scale * self.pos.z);
            assert(vp.scale * vp.pos.z - vp.scale * self.pos.z <= vp.scale * -1
                && vp.scale * -1 <= -2) by (nonlinear_arith)
                requires
                    vp.pos.z - self.pos.z <= -1,
                    vp.scale >= 2,
            ;
        }
        Ray { origin: self.pos, dr }
    }

    /// Classifies pixel (col, row) against the scene: generate the sample
    /// ray, test the scene's sphere, and paint the sphere's intrinsic color
    /// on a forward hit, the camera's background color otherwise.
    pub fn classify(&self, scene: &Scene, col: u32, row: u32) -> (color: Vec3)
        requires
            self.wf(),
            scene.sphere.wf(),
            col < self.viewport.cols,
            row < self.viewport.rows,
        ensures
            color == if foreground(*self, scene.sphere, col as int, row as int) {
                scene.sphere.material.color
            } else {
                self.bg_color
            },
    {
        let ray = self.sample(col, row);
        match scene.sphere.intersects(&ray) {
            Intersection::Hit { .. } => scene.sphere.material.color,
            Intersection::Miss => self.bg_color,
        }
    }
}

/// Stepping from pixel (c1, r1) to pixel (c2, r2) changes the sample
/// direction by exactly `(c2 - c1) * dx - (r2 - r1) * dy`, componentwise in
/// scaled coordinates: the sampling grid is exactly uniform.
pub proof fn lemma_sample_direction_steps(cam: Camera, c1: int, r1: int, c2: int, r2: int)
    by (nonlinear_arith)
    ensures
        sample_dir_x(cam, c2, r2) - sample_dir_x(cam, c1, r1) == (c2 - c1) * cam.viewport.dx.x - (
        r2 - r1) * cam.viewport.dy.x,
        sample_dir_y(cam, c2, r2) - sample_dir_y(cam, c1, r1) == (c2 - c1) * cam.viewport.dx.y - (
        r2 - r1) * cam.viewport.dy.y,
        sample_dir_z(cam, c2, r2) - sample_dir_z(cam, c1, r1) == (c2 - c1) * cam.viewport.dx.z - (
        r2 - r1) * cam.viewport.dy.z,
{
}

/// The center of pixel (0,0) sits half a step in from the top-left corner:
/// `2 * p00 == 2 * top_left + dx - dy`, componentwise in scaled coordinates
/// (doubled to stay in integers; the equation is exact).
pub proof fn lemma_p00_centered(v: Viewport)
    requires
        v.wf(),
    ensures
        2 * v.p00_coords.x == 2 * v.top_left_coords.x + v.dx.x - v.dy.x,
        2 * v.p00_coords.y == 2 * v.top_left_coords.y + v.dx.y - v.dy.y,
        2 * v.p00_coords.z == 2 * v.top_left_coords.z + v.dx.z - v.dy.z,
{
    assert(2 * v.p00_coords.x == 2 * v.top_left_coords.x + v.dx.x - v.dy.x) by (nonlinear_arith)
        requires
            v.p00_coords.x == v.top_left_coords.x + (v.rows as int) * v.width,
            v.dx.x == 2 * (v.rows as int) * v.width,
            v.dy.x == 0,
    ;
    assert(2 * v.p00_coords.y == 2 * v.top_left_coords.y + v.dx.y - v.dy.y) by (nonlinear_arith)
        requires
            v.p00_coords.y == v.top_left_coords.y - (v.cols as int) * v.height,
            v.dy.y == 2 * (v.cols as int) * v.height,
            v.dx.y == 0,
    ;
}

} // verus!
