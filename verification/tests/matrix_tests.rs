use straal::Mat2;
use straal::Mat3;
use straal::Mat4;
use straal::RotationOrder;
use straal::Scalar;
use straal::Vec3;

fn s(i: i64) -> Scalar {
    Scalar::from_int(i)
}

fn sr(n: i64, d: i64) -> Scalar {
    Scalar::from_ratio(n, d)
}

fn approx(a: Scalar, b: Scalar) -> bool {
    a.approx_eq_def(b)
}

fn approx_mat2(a: Mat2, b: Mat2) -> bool {
    approx(a.r0.x, b.r0.x) && approx(a.r0.y, b.r0.y) && approx(a.r1.x, b.r1.x)
        && approx(a.r1.y, b.r1.y)
}

fn approx_mat3(a: Mat3, b: Mat3) -> bool {
    approx(a.r0.x, b.r0.x) && approx(a.r0.y, b.r0.y) && approx(a.r0.z, b.r0.z)
        && approx(a.r1.x, b.r1.x) && approx(a.r1.y, b.r1.y) && approx(a.r1.z, b.r1.z)
        && approx(a.r2.x, b.r2.x) && approx(a.r2.y, b.r2.y) && approx(a.r2.z, b.r2.z)
}

fn approx_mat4(a: Mat4, b: Mat4) -> bool {
    approx(a.r0.x, b.r0.x) && approx(a.r0.y, b.r0.y) && approx(a.r0.z, b.r0.z)
        && approx(a.r0.w, b.r0.w) && approx(a.r1.x, b.r1.x) && approx(a.r1.y, b.r1.y)
        && approx(a.r1.z, b.r1.z) && approx(a.r1.w, b.r1.w) && approx(a.r2.x, b.r2.x)
        && approx(a.r2.y, b.r2.y) && approx(a.r2.z, b.r2.z) && approx(a.r2.w, b.r2.w)
        && approx(a.r3.x, b.r3.x) && approx(a.r3.y, b.r3.y) && approx(a.r3.z, b.r3.z)
        && approx(a.r3.w, b.r3.w)
}

#[test]
fn mat3_determinant() {
    let m0 = Mat2::new_from_arrs([s(10), s(4)], [s(8), s(2)]);
    let det = m0.determinant();
    assert_eq!(s(-12), det);

    let m0 = Mat3::new_from_arrs([s(2), s(-3), s(1)], [s(2), s(0), s(-1)], [s(1), s(4), s(5)]);
    let det = m0.determinant();
    assert_eq!(s(49), det);

    let m0 = Mat4::new_from_arrs(
        [s(10), s(4), s(6), s(9)],
        [s(8), s(2), s(4), s(7)],
        [s(11), s(5), s(7), s(10)],
        [s(3), s(9), s(11), s(2)],
    );
    let det = m0.determinant();
    assert_eq!(s(0), det);
}

#[test]
fn matrix_products_and_identities() {
    let m0 = Mat2::new_from_arrs([s(2), s(4)], [s(5), s(7)]);
    let m1 = Mat2::identity();
    let m2 = m0.mul_mat(m1);
    assert_eq!(m2, m0);

    let m0 = Mat3::new_from_arrs([s(10), s(4), s(6)], [s(8), s(2), s(4)], [s(11), s(5), s(7)]);
    let m1 = Mat3::identity();
    let m2 = m0.mul_mat(m1);
    assert_eq!(m0, m2);

    let m0 = Mat4::new_from_arrs(
        [s(10), s(4), s(6), s(9)],
        [s(8), s(2), s(4), s(7)],
        [s(11), s(5), s(7), s(10)],
        [s(3), s(9), s(11), s(2)],
    );
    let m1 = Mat4::identity();
    let m2 = m0.mul_mat(m1);
    assert_eq!(m2, m0);
}

#[test]
fn matrix_inverses() {
    let base = Mat2::new(s(4), s(7), s(2), s(6));
    let inv = base.inverse().unwrap();
    let prod = base.mul_mat(inv);
    assert!(approx_mat2(Mat2::identity(), prod));

    let base = Mat3::new(s(2), s(-3), s(1), s(2), s(0), s(-1), s(1), s(4), s(5));
    let inv = base.inverse().unwrap();
    let prod = base.mul_mat(inv);
    assert!(approx_mat3(Mat3::identity(), prod));

    let base = Mat4::new(
        s(2),
        s(-3),
        s(1),
        sr(-345, 100),
        s(2),
        s(0),
        s(-1),
        sr(23234267, 100000),
        s(1),
        s(4),
        s(5),
        sr(7223, 1000),
        s(32),
        sr(-453, 1000),
        sr(2323, 100),
        s(1),
    );
    let inv = base.inverse().unwrap();
    let prod = base.mul_mat(inv);
    assert!(approx_mat4(Mat4::identity(), prod));
}

#[test]
fn rotation_matrices() {
    let m0 = Mat3::get_rotation_mat_euler_upr_obj_deg(s(89), s(89), s(89));
    let m1 = Mat3::get_rotation_mat_flex_euler_deg(
        Vec3::new(s(89), s(89), s(89)),
        RotationOrder::BPH,
    );
    assert!(approx_mat3(m0, m1));
}

#[test]
fn singular_matrices_are_refused() {
    let m2 = Mat2::new(s(1), s(2), s(2), s(4));
    assert!(m2.inverse().is_err());

    let m3 = Mat3::new_from_arrs([s(10), s(4), s(6)], [s(8), s(2), s(4)], [s(11), s(5), s(7)]);
    assert!(m3.inverse().is_err());

    let m4 = Mat4::new_from_arrs(
        [s(10), s(4), s(6), s(9)],
        [s(8), s(2), s(4), s(7)],
        [s(11), s(5), s(7), s(10)],
        [s(3), s(9), s(11), s(2)],
    );
    assert!(m4.inverse().is_err());
}

#[test]
fn rotation_matrix_orthonormality() {
    let r = Mat3::get_rotation_mat_euler_obj_upr_deg(sr(333, 10), sr(-582, 10), s(140));
    assert!(approx(r.r0.length(), Scalar::one()));
    assert!(approx(r.r1.length(), Scalar::one()));
    assert!(approx(r.r2.length(), Scalar::one()));
    assert!(approx(r.determinant(), Scalar::one()));

    let axis = Vec3::new(s(0), s(1), s(0));
    let r = Mat3::get_angle_axis_mat_deg(axis, s(33));
    assert!(approx(r.r0.length(), Scalar::one()));
    assert!(approx(r.r1.length(), Scalar::one()));
    assert!(approx(r.r2.length(), Scalar::one()));
    assert!(approx(r.determinant(), Scalar::one()));
}

#[test]
fn rotation_matrix_inverse_is_transpose() {
    let r = Mat3::get_rotation_mat_euler_obj_upr_deg(sr(752, 10), s(-123), s(62));
    let prod = r.mul_mat(r.transpose());
    assert!(approx_mat3(prod, Mat3::identity()));
}

#[test]
fn determinant_matches_transpose() {
    // The transpose runs the shared-subfactor expansion over a different
    // operand order, yet the determinant agrees within tolerance.
    let m = Mat4::new(
        s(2),
        s(-3),
        s(1),
        sr(-345, 100),
        s(2),
        s(0),
        s(-1),
        sr(23234267, 100000),
        s(1),
        s(4),
        s(5),
        sr(7223, 1000),
        s(32),
        sr(-453, 1000),
        sr(2323, 100),
        s(1),
    );
    assert!(approx(m.determinant(), m.transpose().determinant()));

    let m = Mat3::new(s(2), s(-3), s(1), s(2), s(0), s(-1), s(1), s(4), s(5));
    assert!(approx(m.determinant(), m.transpose().determinant()));
}

#[test]
fn translation_and_scale_matrices() {
    let mut m = Mat4::identity();
    m.translate(Vec3::new(s(3), s(-4), s(5)));
    assert_eq!(m.r0.w, s(3));
    assert_eq!(m.r1.w, s(-4));
    assert_eq!(m.r2.w, s(5));

    let sc = Mat3::get_uniform_scale_mat(Vec3::new(s(2), s(3), s(4)));
    assert_eq!(sc.r0.x, s(2));
    assert_eq!(sc.r1.y, s(3));
    assert_eq!(sc.r2.z, s(4));
    assert_eq!(sc.r0.y, s(0));
}
