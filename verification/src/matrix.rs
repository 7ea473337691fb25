//! 3x3 integer matrix, used to decompose vectors into components parallel
//! and orthogonal to an axis.

use vstd::prelude::*;
use crate::vec::{Vec3, dot3, vec_bounded};

verus! {

/// 3x3 matrix stored as three row vectors; a plain value type.
#[derive(Clone, Copy, PartialEq, Eq, Structural, Debug)]
pub struct Matrix3 {
    pub r0: Vec3,
    pub r1: Vec3,
    pub r2: Vec3,
}

impl Matrix3 {
    /// The identity matrix.
    pub fn identity() -> (m: Matrix3)
        ensures
            m.r0 == (Vec3 { x: 1, y: 0, z: 0 }),
            m.r1 == (Vec3 { x: 0, y: 1, z: 0 }),
            m.r2 == (Vec3 { x: 0, y: 0, z: 1 }),
    {
        Matrix3 {
            r0: Vec3 { x: 1, y: 0, z: 0 },
            r1: Vec3 { x: 0, y: 1, z: 0 },
            r2: Vec3 { x: 0, y: 0, z: 1 },
        }
    }

    /// Entrywise difference, used to build the orthogonal-complement
    /// projector from a scaled identity and an outer product.
    pub fn sub(self, rhs: Matrix3) -> (m: Matrix3)
        requires
            i128::MIN <= self.r0.x - rhs.r0.x <= i128::MAX,
            i128::MIN <= self.r0.y - rhs.r0.y <= i128::MAX,
            i128::MIN <= self.r0.z - rhs.r0.z <= i128::MAX,
            i128::MIN <= self.r1.x - rhs.r1.x <= i128::MAX,
            i128::MIN <= self.r1.y - rhs.r1.y <= i128::MAX,
            i128::MIN <= self.r1.z - rhs.r1.z <= i128::MAX,
            i128::MIN <= self.r2.x - rhs.r2.x <= i128::MAX,
            i128::MIN <= self.r2.y - rhs.r2.y <= i128::MAX,
            i128::MIN <= self.r2.z - rhs.r2.z <= i128::MAX,
        ensures
            m.r0.x == self.r0.x - rhs.r0.x,
            m.r0.y == self.r0.y - rhs.r0.y,
            m.r0.z == self.r0.z - rhs.r0.z,
            m.r1.x == self.r1.x - rhs.r1.x,
            m.r1.y == self.r1.y - rhs.r1.y,
            m.r1.z == self.r1.z - rhs.r1.z,
            m.r2.x == self.r2.x - rhs.r2.x,
            m.r2.y == self.r2.y - rhs.r2.y,
            m.r2.z == self.r2.z - rhs.r2.z,
    {
        Matrix3 { r0: self.r0.sub(rhs.r0), r1: self.r1.sub(rhs.r1), r2: self.r2.sub(rhs.r2) }
    }

    /// Scaling every entry by an integer factor.
    pub fn mul(self, k: i128) -> (m: Matrix3)
        requires
            -0x4000_0000_0000_0000 <= k <= 0x4000_0000_0000_0000,
            vec_bounded(self.r0, 0x4000_0000_0000_0000),
            vec_bounded(self.r1, 0x4000_0000_0000_0000),
            vec_bounded(self.r2, 0x4000_0000_0000_0000),
        ensures
            m.r0.x == self.r0.x * k,
            m.r0.y == self.r0.y * k,
            m.r0.z == self.r0.z * k,
            m.r1.x == self.r1.x * k,
            m.r1.y == self.r1.y * k,
            m.r1.z == self.r1.z * k,
            m.r2.x == self.r2.x * k,
            m.r2.y == self.r2.y * k,
            m.r2.z == self.r2.z * k,
    {
        proof {
            crate::num::lemma_abs_mul(self.r0.x as int, k as int, 0x4000_0000_0000_0000,
                0x4000_0000_0000_0000);
            crate::num::lemma_abs_mul(self.r0.y as int, k as int, 0x4000_0000_0000_0000,
                0x4000_0000_0000_0000);
            crate::num::lemma_abs_mul(self.r0.z as int, k as int, 0x4000_0000_0000_0000,
                0x4000_0000_0000_0000);
            crate::num::lemma_abs_mul(self.r1.x as int, k as int, 0x4000_0000_0000_0000,
                0x4000_0000_0000_0000);
            crate::num::lemma_abs_mul(self.r1.y as int, k as int, 0x4000_0000_0000_0000,
                0x4000_0000_0000_0000);
            crate::num::lemma_abs_mul(self.r1.z as int, k as int, 0x4000_0000_0000_0000,
                0x4000_0000_0000_0000);
            crate::num::lemma_abs_mul(self.r2.x as int, k as int, 0x4000_0000_0000_0000,
                0x4000_0000_0000_0000);
            crate::num::lemma_abs_mul(self.r2.y as int, k as int, 0x4000_0000_0000_0000,
                0x4000_0000_0000_0000);
            crate::num::lemma_abs_mul(self.r2.z as int, k as int, 0x4000_0000_0000_0000,
                0x4000_0000_0000_0000);
        }
        Matrix3 {
            r0: Vec3 { x: self.r0.x * k, y: self.r0.y * k, z: self.r0.z * k },
            r1: Vec3 { x: self.r1.x * k, y: self.r1.y * k, z: self.r1.z * k },
            r2: Vec3 { x: self.r2.x * k, y: self.r2.y * k, z: self.r2.z * k },
        }
    }

    /// Matrix-vector product: each result component is a row dotted with `v`.
    pub fn mul_vec(self, v: Vec3) -> (r: Vec3)
        requires
            vec_bounded(self.r0, crate::vec::DOT_COMP_MAX as int),
            vec_bounded(self.r1, crate::vec::DOT_COMP_MAX as int),
            vec_bounded(self.r2, crate::vec::DOT_COMP_MAX as int),
            vec_bounded(v, crate::vec::DOT_COMP_MAX as int),
        ensures
            r.x == dot3(self.r0, v),
            r.y == dot3(self.r1, v),
            r.z == dot3(self.r2, v),
    {
        Vec3 { x: self.r0.dot(v), y: self.r1.dot(v), z: self.r2.dot(v) }
    }
}

} // verus!
