//! 3-component integer vector: positions, directions, colors, normals.

use vstd::prelude::*;
use crate::matrix::Matrix3;

verus! {

/// Largest magnitude allowed for a scene coordinate (a position, a radius, a
/// viewport measure). Keeping scene data this small keeps every intermediate
/// product of the intersection algebra inside `i128`.
pub const COORD_MAX: i128 = 4096;

/// Largest component magnitude accepted by `Vec3::dot` (2^62): three products
/// of two such components still fit in `i128`.
pub const DOT_COMP_MAX: i128 = 0x4000_0000_0000_0000;

/// Vector of three integer coordinates; a value type with no identity beyond
/// its components. Also used for colors, as channels in 0..=255.
#[derive(Clone, Copy, PartialEq, Eq, Structural, Debug)]
pub struct Vec3 {
    pub x: i128,
    pub y: i128,
    pub z: i128,
}

/// Dot product, at the specification level.
pub open spec fn dot3(a: Vec3, b: Vec3) -> int {
    a.x * b.x + a.y * b.y + a.z * b.z
}

/// Dot product of `d` with the difference `a - b`, at the specification level.
pub open spec fn dot3d(d: Vec3, a: Vec3, b: Vec3) -> int {
    d.x * (a.x - b.x) + d.y * (a.y - b.y) + d.z * (a.z - b.z)
}

/// Dot product of the differences `a1 - a2` and `b1 - b2`.
pub open spec fn ddot(a1: Vec3, a2: Vec3, b1: Vec3, b2: Vec3) -> int {
    (a1.x - a2.x) * (b1.x - b2.x) + (a1.y - a2.y) * (b1.y - b2.y) + (a1.z - a2.z) * (b1.z - b2.z)
}

/// Squared distance between two points.
pub open spec fn sq_dist(a: Vec3, b: Vec3) -> int {
    ddot(a, b, a, b)
}

/// Every component within [-b, b].
pub open spec fn vec_bounded(v: Vec3, b: int) -> bool {
    &&& -b <= v.x <= b
    &&& -b <= v.y <= b
    &&& -b <= v.z <= b
}

/// The zero vector.
pub open spec fn is_zero3(v: Vec3) -> bool {
    v.x == 0 && v.y == 0 && v.z == 0
}

/// Clamping a single coordinate into [lo, hi].
pub open spec fn clamp1(x: int, lo: int, hi: int) -> int {
    if x < lo {
        lo
    } else if x > hi {
        hi
    } else {
        x
    }
}

/// A dot product of vectors bounded by `ba` and `bb` lies within 3*ba*bb.
pub proof fn lemma_dot3_bound(a: Vec3, b: Vec3, ba: int, bb: int)
    requires
        vec_bounded(a, ba),
        vec_bounded(b, bb),
    ensures
        -(3 * (ba * bb)) <= dot3(a, b) <= 3 * (ba * bb),
{
    crate::num::lemma_abs_mul(a.x as int, b.x as int, ba, bb);
    crate::num::lemma_abs_mul(a.y as int, b.y as int, ba, bb);
    crate::num::lemma_abs_mul(a.z as int, b.z as int, ba, bb);
}

/// A nonzero integer vector has a positive dot product with itself.
pub proof fn lemma_dot3_self_pos(a: Vec3)
    requires
        !is_zero3(a),
    ensures
        dot3(a, a) >= 1,
{
    crate::num::lemma_sq_nonneg(a.x as int);
    crate::num::lemma_sq_nonneg(a.y as int);
    crate::num::lemma_sq_nonneg(a.z as int);
}

impl Vec3 {
    /// Builds the vector (x, y, z).
    pub fn new(x: i128, y: i128, z: i128) -> (v: Vec3)
        ensures
            v == (Vec3 { x, y, z }),
    {
        Vec3 { x, y, z }
    }

    /// Componentwise sum.
    pub fn add(self, rhs: Vec3) -> (v: Vec3)
        requires
            i128::MIN <= self.x + rhs.x <= i128::MAX,
            i128::MIN <= self.y + rhs.y <= i128::MAX,
            i128::MIN <= self.z + rhs.z <= i128::MAX,
        ensures
            v.x == self.x + rhs.x,
            v.y == self.y + rhs.y,
            v.z == self.z + rhs.z,
    {
        Vec3 { x: self.x + rhs.x, y: self.y + rhs.y, z: self.z + rhs.z }
    }

    /// Componentwise difference.
    pub fn sub(self, rhs: Vec3) -> (v: Vec3)
        requires
            i128::MIN <= self.x - rhs.x <= i128::MAX,
            i128::MIN <= self.y - rhs.y <= i128::MAX,
            i128::MIN <= self.z - rhs.z <= i128::MAX,
        ensures
            v.x == self.x - rhs.x,
            v.y == self.y - rhs.y,
            v.z == self.z - rhs.z,
    {
        Vec3 { x: self.x - rhs.x, y: self.y - rhs.y, z: self.z - rhs.z }
    }

    /// Scaling by an integer factor.
    pub fn mul(self, rhs: i128) -> (v: Vec3)
        requires
            i128::MIN <= self.x * rhs <= i128::MAX,
            i128::MIN <= self.y * rhs <= i128::MAX,
            i128::MIN <= self.z * rhs <= i128::MAX,
        ensures
            v.x == self.x * rhs,
            v.y == self.y * rhs,
            v.z == self.z * rhs,
    {
        Vec3 { x: self.x * rhs, y: self.y * rhs, z: self.z * rhs }
    }

    /// Componentwise (Hadamard) product.
    pub fn mul_vec(self, rhs: Vec3) -> (v: Vec3)
        requires
            i128::MIN <= self.x * rhs.x <= i128::MAX,
            i128::MIN <= self.y * rhs.y <= i128::MAX,
            i128::MIN <= self.z * rhs.z <= i128::MAX,
        ensures
            v.x == self.x * rhs.x,
            v.y == self.y * rhs.y,
            v.z == self.z * rhs.z,
    {
        Vec3 { x: self.x * rhs.x, y: self.y * rhs.y, z: self.z * rhs.z }
    }

    /// Componentwise negation.
    pub fn neg(self) -> (v: Vec3)
        requires
            self.x > i128::MIN,
            self.y > i128::MIN,
            self.z > i128::MIN,
        ensures
            v.x == -self.x,
            v.y == -self.y,
            v.z == -self.z,
    {
        Vec3 { x: -self.x, y: -self.y, z: -self.z }
    }

    /// Dot product of two vectors.
    pub fn dot(self, rhs: Vec3) -> (d: i128)
        requires
            vec_bounded(self, DOT_COMP_MAX as int),
            vec_bounded(rhs, DOT_COMP_MAX as int),
        ensures
            d == dot3(self, rhs),
    {
        proof {
            lemma_dot3_bound(self, rhs, DOT_COMP_MAX as int, DOT_COMP_MAX as int);
            crate::num::lemma_abs_mul(self.x as int, rhs.x as int, DOT_COMP_MAX as int,
                DOT_COMP_MAX as int);
            crate::num::lemma_abs_mul(self.y as int, rhs.y as int, DOT_COMP_MAX as int,
                DOT_COMP_MAX as int);
            crate::num::lemma_abs_mul(self.z as int, rhs.z as int, DOT_COMP_MAX as int,
                DOT_COMP_MAX as int);
        }
        self.x * rhs.x + self.y * rhs.y + self.z * rhs.z
    }

    /// Clamps every component into [i, j].
    pub fn clamp(self, i: i128, j: i128) -> (v: Vec3)
        requires
            i <= j,
        ensures
            v.x == clamp1(self.x as int, i as int, j as int),
            v.y == clamp1(self.y as int, i as int, j as int),
            v.z == clamp1(self.z as int, i as int, j as int),
    {
        Vec3 {
            x: if self.x < i { i } else if self.x > j { j } else { self.x },
            y: if self.y < i { i } else if self.y > j { j } else { self.y },
            z: if self.z < i { i } else if self.z > j { j } else { self.z },
        }
    }

    /// Scales a unit-range color (0..=1 per channel) to channel values 0..=255.
    pub fn rgb_255(self) -> (v: Vec3)
        requires
            vec_bounded(self, 0x1_0000_0000_0000_0000),
        ensures
            v.x == 255 * self.x,
            v.y == 255 * self.y,
            v.z == 255 * self.z,
    {
        Vec3 { x: 255 * self.x, y: 255 * self.y, z: 255 * self.z }
    }

    /// Outer product of the vector with itself: the matrix u (x) u, whose
    /// action on v is (u . v) * u. Divided by u . u it projects onto the line
    /// spanned by u.
    pub fn projection_matrix(self) -> (m: Matrix3)
        requires
            vec_bounded(self, 0x4000_0000_0000_0000),
        ensures
            m.r0.x == self.x * self.x,
            m.r0.y == self.x * self.y,
            m.r0.z == self.x * self.z,
            m.r1.x == self.y * self.x,
            m.r1.y == self.y * self.y,
            m.r1.z == self.y * self.z,
            m.r2.x == self.z * self.x,
            m.r2.y == self.z * self.y,
            m.r2.z == self.z * self.z,
    {
        proof {
            crate::num::lemma_abs_mul(self.x as int, self.x as int, 0x4000_0000_0000_0000,
                0x4000_0000_0000_0000);
            crate::num::lemma_abs_mul(self.x as int, self.y as int, 0x4000_0000_0000_0000,
                0x4000_0000_0000_0000);
            crate::num::lemma_abs_mul(self.x as int, self.z as int, 0x4000_0000_0000_0000,
                0x4000_0000_0000_0000);
            crate::num::lemma_abs_mul(self.y as int, self.y as int, 0x4000_0000_0000_0000,
                0x4000_0000_0000_0000);
            crate::num::lemma_abs_mul(self.y as int, self.z as int, 0x4000_0000_0000_0000,
                0x4000_0000_0000_0000);
            crate::num::lemma_abs_mul(self.z as int, self.z as int, 0x4000_0000_0000_0000,
                0x4000_0000_0000_0000);
        }
        Matrix3 {
            r0: Vec3 { x: self.x * self.x, y: self.x * self.y, z: self.x * self.z },
            r1: Vec3 { x: self.y * self.x, y: self.y * self.y, z: self.y * self.z },
            r2: Vec3 { x: self.z * self.x, y: self.z * self.y, z: self.z * self.z },
        }
    }
}

} // verus!
