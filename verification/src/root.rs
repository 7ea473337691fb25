//! Exact hit distances.
//!
//! The distance at which a ray meets a quadric surface is generally
//! irrational; it is carried exactly as `(p + e*sqrt(sq)) / w` with `w > 0`
//! and `e` in {-1, 0, 1}. Rational distances (planes, cylinder caps) use
//! `e == 0`, `sq == 0`. Signs and order of such values are decided exactly
//! by `surd_sign`.

use vstd::prelude::*;
use crate::num::{surd_sign, surd_sign_ex, SURD_P_MAX, SURD_E_MAX, SURD_SQ_MAX};

verus! {

/// Magnitude bound on `p` and `w` of a root produced by the shape tests
/// (2^63): small enough that cross-multiplied comparisons stay exact.
pub const ROOT_F_MAX: i128 = 0x8000_0000_0000_0000;

/// An exact hit distance `(p + e*sqrt(sq)) / w`.
#[derive(Clone, Copy, PartialEq, Eq, Structural, Debug)]
pub struct Root {
    pub p: i128,
    pub e: i128,
    pub sq: i128,
    pub w: i128,
}

impl Root {
    /// Structural soundness: positive denominator, nonnegative radicand,
    /// unit radical coefficient, rational values written with `sq == 0`.
    pub open spec fn wf(self) -> bool {
        &&& self.w > 0
        &&& self.sq >= 0
        &&& (self.e == -1 || self.e == 0 || self.e == 1)
        &&& (self.e == 0 ==> self.sq == 0)
    }

    /// Field magnitudes small enough for the exact comparison routines.
    pub open spec fn in_range(self) -> bool {
        &&& -ROOT_F_MAX <= self.p <= ROOT_F_MAX
        &&& self.w <= ROOT_F_MAX
        &&& self.sq <= SURD_SQ_MAX
    }

    /// Sign of the represented value.
    pub open spec fn sign(self) -> int {
        surd_sign(self.p as int, self.e as int, self.sq as int)
    }

    /// The represented value is exactly the rational `pn / pw` (`pw > 0`).
    pub open spec fn is_rat(self, pn: int, pw: int) -> bool {
        surd_sign(self.p * pw - pn * self.w, self.e * pw, self.sq as int) == 0
    }
}

/// The rational `pn / pw` (with `pw > 0`) lies strictly below the surd
/// `(p + e*sqrt(sq)) / w` (with `w > 0`): the sign of
/// `pn*w - p*pw - e*pw*sqrt(sq)` is negative.
pub open spec fn rat_lt_surd(pn: int, pw: int, p: int, e: int, sq: int, w: int) -> bool {
    surd_sign(pn * w - p * pw, -e * pw, sq) < 0
}

/// The rational `pn / pw` (with `pw > 0`) lies strictly below the value of
/// root `r`.
pub open spec fn rat_lt_root(pn: int, pw: int, r: Root) -> bool {
    rat_lt_surd(pn, pw, r.p as int, r.e as int, r.sq as int, r.w as int)
}

/// Whether the value of root `r` is strictly positive, decided exactly.
pub fn root_is_positive(r: &Root) -> (b: bool)
    requires
        r.wf(),
        r.in_range(),
    ensures
        b == (r.sign() > 0),
{
    surd_sign_ex(r.p, r.e, r.sq) > 0
}

/// Whether `pn / pw < r` (with `pw > 0`), decided exactly by
/// cross-multiplication against the root's surd form.
pub fn rat_lt_root_ex(pn: i128, pw: i128, r: &Root) -> (b: bool)
    requires
        r.wf(),
        r.in_range(),
        0 < pw <= SURD_E_MAX,
        -SURD_E_MAX <= pn <= SURD_E_MAX,
    ensures
        b == rat_lt_root(pn as int, pw as int, *r),
{
    proof {
        crate::num::lemma_abs_mul(pn as int, r.w as int, SURD_E_MAX as int, ROOT_F_MAX as int);
        crate::num::lemma_abs_mul(r.p as int, pw as int, ROOT_F_MAX as int, SURD_E_MAX as int);
        assert(SURD_E_MAX as int * ROOT_F_MAX as int + ROOT_F_MAX as int * SURD_E_MAX as int
            <= SURD_P_MAX as int);
    }
    proof {
        assert(-SURD_E_MAX <= r.e * pw <= SURD_E_MAX && -(r.e as int * (pw as int)) == (-r.e as int)
            * (pw as int)) by (nonlinear_arith)
            requires
                r.e == -1 || r.e == 0 || r.e == 1,
                0 < pw <= SURD_E_MAX,
        ;
    }
    let num: i128 = pn * r.w - r.p * pw;
    let coeff: i128 = -(r.e * pw);
    surd_sign_ex(num, coeff, r.sq) < 0
}

/// Whether root `r` equals the rational `pn / pw` (`pw > 0`) exactly.
pub fn root_eq_rat_ex(r: &Root, pn: i128, pw: i128) -> (b: bool)
    requires
        r.wf(),
        r.in_range(),
        0 < pw <= SURD_E_MAX,
        -SURD_E_MAX <= pn <= SURD_E_MAX,
    ensures
        b == r.is_rat(pn as int, pw as int),
{
    proof {
        crate::num::lemma_abs_mul(pn as int, r.w as int, SURD_E_MAX as int, ROOT_F_MAX as int);
        crate::num::lemma_abs_mul(r.p as int, pw as int, ROOT_F_MAX as int, SURD_E_MAX as int);
    }
    proof {
        assert(-SURD_E_MAX <= r.e * pw <= SURD_E_MAX) by (nonlinear_arith)
            requires
                r.e == -1 || r.e == 0 || r.e == 1,
                0 < pw <= SURD_E_MAX,
        ;
    }
    let num: i128 = r.p * pw - pn * r.w;
    let coeff: i128 = r.e * pw;
    surd_sign_ex(num, coeff, r.sq) == 0
}

} // verus!
