use raycast::vec::Vec3;
use raycast::matrix::Matrix3;
use raycast::ray::Ray;
use raycast::num::{isqrt_u128, sign_i128, surd_sign_ex};

#[test]
fn vector_arithmetic_is_componentwise() {
    let a = Vec3::new(1, -2, 3);
    let b = Vec3::new(4, 5, -6);
    assert_eq!(a.add(b), Vec3::new(5, 3, -3));
    assert_eq!(a.sub(b), Vec3::new(-3, -7, 9));
    assert_eq!(a.mul(-2), Vec3::new(-2, 4, -6));
    assert_eq!(a.mul_vec(b), Vec3::new(4, -10, -18));
    assert_eq!(a.neg(), Vec3::new(-1, 2, -3));
    assert_eq!(a.dot(b), 1 * 4 + (-2) * 5 + 3 * (-6));
    assert_eq!(a.dot(a), 14);
}

#[test]
fn clamp_and_color_scaling() {
    let v = Vec3::new(-5, 100, 300);
    assert_eq!(v.clamp(0, 255), Vec3::new(0, 100, 255));
    assert_eq!(Vec3::new(1, 0, 1).rgb_255(), Vec3::new(255, 0, 255));
}

#[test]
fn matrix_identity_and_projection() {
    let u = Vec3::new(1, 2, 3);
    let p = u.projection_matrix();
    assert_eq!(p.r0, Vec3::new(1, 2, 3));
    assert_eq!(p.r1, Vec3::new(2, 4, 6));
    assert_eq!(p.r2, Vec3::new(3, 6, 9));
    let id = Matrix3::identity();
    assert_eq!(id.mul_vec(u), u);
    // The scaled orthogonal projector (u.u) I - u (x) u annihilates u.
    let m = id.mul(u.dot(u)).sub(p);
    assert_eq!(m.mul_vec(u), Vec3::new(0, 0, 0));
    // And it maps a vector orthogonal to u to a multiple of itself.
    let v = Vec3::new(3, 0, -1);
    assert_eq!(u.dot(v), 0);
    assert_eq!(m.mul_vec(v), v.mul(14));
}

#[test]
fn ray_evaluates_points() {
    let r = Ray::new(Vec3::new(1, 2, 3), Vec3::new(-1, 0, 2));
    assert_eq!(r.at(0), Vec3::new(1, 2, 3));
    assert_eq!(r.at(4), Vec3::new(-3, 2, 11));
}

#[test]
fn integer_square_root_brackets() {
    assert_eq!(isqrt_u128(0), 0);
    assert_eq!(isqrt_u128(1), 1);
    assert_eq!(isqrt_u128(2), 1);
    assert_eq!(isqrt_u128(3), 1);
    assert_eq!(isqrt_u128(4), 2);
    assert_eq!(isqrt_u128(15), 3);
    assert_eq!(isqrt_u128(16), 4);
    assert_eq!(isqrt_u128(1 << 120), 1 << 60);
    assert_eq!(isqrt_u128((1 << 120) - 1), (1 << 60) - 1);
}

#[test]
fn surd_signs_are_exact() {
    assert_eq!(sign_i128(-7), -1);
    assert_eq!(sign_i128(0), 0);
    assert_eq!(sign_i128(3), 1);
    // 3 - sqrt(4) > 0
    assert_eq!(surd_sign_ex(3, -1, 4), 1);
    // 1 - sqrt(2) < 0
    assert_eq!(surd_sign_ex(1, -1, 2), -1);
    // -3 + sqrt(9) == 0
    assert_eq!(surd_sign_ex(-3, 1, 9), 0);
    // -3 + sqrt(10) > 0, even though isqrt(10) == 3: the undecided band.
    assert_eq!(surd_sign_ex(-3, 1, 10), 1);
    // 3 - sqrt(10) < 0
    assert_eq!(surd_sign_ex(3, -1, 10), -1);
    // Rational cases.
    assert_eq!(surd_sign_ex(-5, 1, 0), -1);
    assert_eq!(surd_sign_ex(0, 1, 0), 0);
    assert_eq!(surd_sign_ex(0, -2, 49), -1);
}

#[test]
fn matrix_subtraction_is_entrywise() {
    let a = Matrix3::identity().mul(10);
    let b = Vec3::new(1, 0, 2).projection_matrix();
    let m = a.sub(b);
    assert_eq!(m.r0, Vec3::new(9, 0, -2));
    assert_eq!(m.r1, Vec3::new(0, 10, 0));
    assert_eq!(m.r2, Vec3::new(-2, 0, 6));
}
