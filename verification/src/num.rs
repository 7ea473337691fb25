//! Exact sign arithmetic for quadratic surds.
//!
//! Hit distances of quadric surfaces are real numbers of the shape
//! `(p + e*sqrt(sq)) / w` with integer `p`, `e`, `sq`, `w`. Every geometric
//! decision of the engine reduces to the sign of such a number, which is a
//! pure integer question: `surd_sign` defines it algebraically and
//! `surd_sign_ex` computes it exactly, with an integer square root to keep
//! every intermediate product inside `i128`.

use vstd::prelude::*;

verus! {

/// Largest magnitude of the rational part `p` accepted by `surd_sign_ex` (2^95).
pub const SURD_P_MAX: i128 = 0x8000_0000_0000_0000_0000_0000;

/// Largest magnitude of the radical coefficient `e` accepted by `surd_sign_ex` (2^31).
pub const SURD_E_MAX: i128 = 0x8000_0000;

/// Largest radicand `sq` accepted by `surd_sign_ex` (2^122).
pub const SURD_SQ_MAX: i128 = 0x400_0000_0000_0000_0000_0000_0000_0000;

/// Sign of an integer, as -1, 0 or 1.
pub open spec fn sign_of(x: int) -> int {
    if x > 0 {
        1
    } else if x < 0 {
        -1
    } else {
        0
    }
}

/// Sign of the real number `p + e*sqrt(sq)` (for `sq >= 0`), defined purely
/// algebraically: when the rational part and the radical part have opposite
/// signs, their squares decide.
pub open spec fn surd_sign(p: int, e: int, sq: int) -> int {
    let rs = if sq > 0 {
        sign_of(e)
    } else {
        0
    };
    if rs == 0 {
        sign_of(p)
    } else if p == 0 {
        rs
    } else if sign_of(p) == rs {
        rs
    } else {
        sign_of(p) * sign_of(p * p - e * e * sq)
    }
}

/// |x| <= bx and |y| <= by bound the product by bx*by.
pub proof fn lemma_abs_mul(x: int, y: int, bx: int, by: int)
    by (nonlinear_arith)
    requires
        -bx <= x <= bx,
        -by <= y <= by,
    ensures
        -(bx * by) <= x * y <= bx * by,
{
}

/// A square is never negative, and is positive for a nonzero base.
pub proof fn lemma_sq_nonneg(x: int)
    by (nonlinear_arith)
    ensures
        x * x >= 0,
        x != 0 ==> x * x >= 1,
{
}

/// Sign of an integer, executable form.
pub fn sign_i128(x: i128) -> (s: i32)
    ensures
        s as int == sign_of(x as int),
{
    if x > 0 {
        1
    } else if x < 0 {
        -1
    } else {
        0
    }
}

/// Integer square root by bisection: the greatest `g` with `g*g <= n`.
pub fn isqrt_u128(n: u128) -> (g: u128)
    requires
        n < 0x1000_0000_0000_0000_0000_0000_0000_0000u128,  // 2^124
    ensures
        (g as int) * (g as int) <= n as int,
        (n as int) < ((g as int) + 1) * ((g as int) + 1),
{
    let mut lo: u128 = 0;
    let mut hi: u128 = 0x4000_0000_0000_0000u128;  // 2^62
    assert((hi as int) * (hi as int) > n as int) by (nonlinear_arith)
        requires
            n < 0x1000_0000_0000_0000_0000_0000_0000_0000u128,
            hi == 0x4000_0000_0000_0000u128,
    ;
    while hi - lo > 1
        invariant
            lo < hi,
            hi <= 0x4000_0000_0000_0000u128,
            (lo as int) * (lo as int) <= n as int,
            (n as int) < (hi as int) * (hi as int),
        decreases hi - lo,
    {
        let mid: u128 = lo + (hi - lo) / 2;
        assert(lo < mid < hi);
        assert((mid as int) * (mid as int) < 0x1_0000_0000_0000_0000_0000_0000_0000_0000)
            by (nonlinear_arith)
            requires
                mid <= 0x4000_0000_0000_0000u128,
        ;
        if mid * mid <= n {
            lo = mid;
        } else {
            hi = mid;
        }
    }
    lo
}

/// Exact sign of `p + e*sqrt(sq)`, decided with integer arithmetic only.
///
/// The bounds keep every intermediate inside the machine words: the band
/// left undecided by the integer square root is settled through the identity
/// `p*p - e*e*sq == rho*(|p| + |e|*g) - e*e*(sq - g*g)` with
/// `rho == |p| - |e|*g`, whose two sides both fit in `u128`.
pub fn surd_sign_ex(p: i128, e: i128, sq: i128) -> (s: i32)
    requires
        0 <= sq <= SURD_SQ_MAX,
        -SURD_E_MAX <= e <= SURD_E_MAX,
        -SURD_P_MAX <= p <= SURD_P_MAX,
    ensures
        s as int == surd_sign(p as int, e as int, sq as int),
{
    let rs: i32 = if sq > 0 {
        sign_i128(e)
    } else {
        0
    };
    if rs == 0 {
        return sign_i128(p);
    }
    if p == 0 {
        return rs;
    }
    let sp: i32 = sign_i128(p);
    if sp == rs {
        return rs;
    }
    // Opposite signs: the result is sign(p) * sign(p*p - e*e*sq).
    let pa: u128 = if p < 0 {
        (-p) as u128
    } else {
        p as u128
    };
    let ea: u128 = if e < 0 {
        (-e) as u128
    } else {
        e as u128
    };
    let squ: u128 = sq as u128;
    assert(pa as int * pa as int == p as int * p as int) by (nonlinear_arith)
        requires
            pa as int == if p < 0 { -(p as int) } else { p as int },
    ;
    assert(ea as int * ea as int == e as int * e as int) by (nonlinear_arith)
        requires
            ea as int == if e < 0 { -(e as int) } else { e as int },
    ;
    let g: u128 = isqrt_u128(squ);
    assert(g <= 0x2000_0000_0000_0000u128) by (nonlinear_arith)
        requires
            (g as int) * (g as int) <= squ as int,
            squ as int <= SURD_SQ_MAX as int,
    ;
    assert((ea as int) * ((g as int) + 1) < 0x2000_0000_0000_0000_0000_0000 && (ea as int) * (
    g as int) < 0x2000_0000_0000_0000_0000_0000) by (nonlinear_arith)
        requires
            0 <= (ea as int) <= SURD_E_MAX as int,
            0 <= (g as int) <= 0x2000_0000_0000_0000,
    ;
    let eg: u128 = ea * g;  // <= 2^31 * 2^61 = 2^92
    let s2: i32 = if pa < eg {
        // pa^2 < eg^2 <= ea^2 * sq
        assert((pa as int) * (pa as int) < (ea as int) * (ea as int) * (squ as int)) by (nonlinear_arith)
            requires
                0 <= (pa as int) < (eg as int),
                eg as int == ea as int * g as int,
                (g as int) * (g as int) <= squ as int,
                ea as int >= 1,
        ;
        -1
    } else {
        let hi: u128 = ea * (g + 1);
        if pa >= hi {
            // pa^2 >= ea^2 * (g+1)^2 > ea^2 * sq
            assert(pa as int * pa as int > ea as int * ea as int * (squ as int))
                by (nonlinear_arith)
                requires
                    pa as int >= hi as int,
                    hi as int == ea as int * ((g as int) + 1),
                    (squ as int) < ((g as int) + 1) * ((g as int) + 1),
                    ea as int >= 1,
                    squ >= 0,
            ;
            1
        } else {
            // eg <= pa < ea*(g+1): settle through the factored identity.
            assert((pa as int) - (eg as int) < ea as int) by (nonlinear_arith)
                requires
                    (pa as int) < (ea as int) * ((g as int) + 1),
                    eg as int == (ea as int) * (g as int),
            ;
            let rho: u128 = pa - eg;
            assert((rho as int) * ((pa as int) + (eg as int))
                < 0x8000_0000_0000_0000_0000_0000_0000_0000) by (nonlinear_arith)
                requires
                    0 <= (rho as int) <= SURD_E_MAX as int,
                    0 <= (pa as int) <= SURD_P_MAX as int,
                    0 <= (eg as int) <= 0x2000_0000_0000_0000_0000_0000,
            ;
            assert((g as int) * (g as int) <= squ as int && (squ as int) - (g as int) * (g as int)
                <= 2 * (g as int) + 1 && (ea as int) * (ea as int) <= 0x4000_0000_0000_0000 && ((
            ea as int) * (ea as int)) * ((squ as int) - (g as int) * (g as int))
                < 0x8000_0000_0000_0000_0000_0000_0000_0000) by (nonlinear_arith)
                requires
                    (g as int) * (g as int) <= squ as int,
                    (squ as int) < ((g as int) + 1) * ((g as int) + 1),
                    0 <= (g as int) <= 0x2000_0000_0000_0000,
                    0 <= (ea as int) <= SURD_E_MAX as int,
            ;
            let term1: u128 = rho * (pa + eg);
            let term2: u128 = (ea * ea) * (squ - g * g);
            assert(term1 as int - term2 as int == pa as int * pa as int - ea as int * ea as int
                * (squ as int)) by (nonlinear_arith)
                requires
                    rho as int == pa as int - ea as int * (g as int),
                    eg as int == ea as int * (g as int),
                    term1 as int == rho as int * (pa as int + eg as int),
                    term2 as int == (ea as int * ea as int) * (squ as int - (g as int) * (
                    g as int)),
            ;
            if term1 > term2 {
                1
            } else if term1 < term2 {
                -1
            } else {
                0
            }
        }
    };
    assert(s2 as int == sign_of(p as int * p as int - e as int * e as int * (sq as int)));
    sp * s2
}

/// If the smaller branch `p - sqrt(sq)` of a quadratic pair is positive,
/// so is the larger branch `p + sqrt(sq)`.
pub proof fn lemma_surd_e_mono(p: int, sq: int)
    requires
        sq >= 0,
        surd_sign(p, -1, sq) > 0,
    ensures
        surd_sign(p, 1, sq) > 0,
{
    if sq > 0 {
        assert(sign_of(-1) == -1);
        if p == 0 {
            assert(surd_sign(p, -1, sq) == -1);
        } else if sign_of(p) == -1 {
            assert(surd_sign(p, -1, sq) == -1);
        } else {
            assert(sign_of(p) == 1);
            assert(surd_sign(p, -1, sq) == sign_of(p * p - (-1) * (-1) * sq));
            assert((-1) * (-1) * sq == sq) by (nonlinear_arith);
            assert(sign_of(p * p - sq) > 0);
            assert(surd_sign(p, 1, sq) == 1);
        }
    }
}

} // verus!

