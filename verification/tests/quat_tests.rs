use straal::Mat3;
use straal::Quat;
use straal::RotationOrder;
use straal::Scalar;
use straal::Vec3;

fn s(i: i64) -> Scalar {
    Scalar::from_int(i)
}

fn sr(n: i64, d: i64) -> Scalar {
    Scalar::from_ratio(n, d)
}

fn approx(a: Scalar, b: Scalar) -> bool {
    a.approx_eq_def(b)
}

fn approx_quat(a: Quat, b: Quat) -> bool {
    approx(a.w, b.w) && approx(a.v.x, b.v.x) && approx(a.v.y, b.v.y) && approx(a.v.z, b.v.z)
}

fn close(a: Scalar, b: Scalar, tol_raw: i64) -> bool {
    let d = a.raw() - b.raw();
    -tol_raw < d && d < tol_raw
}

fn close_mat3(a: Mat3, b: Mat3, tol_raw: i64) -> bool {
    close(a.r0.x, b.r0.x, tol_raw) && close(a.r0.y, b.r0.y, tol_raw)
        && close(a.r0.z, b.r0.z, tol_raw) && close(a.r1.x, b.r1.x, tol_raw)
        && close(a.r1.y, b.r1.y, tol_raw) && close(a.r1.z, b.r1.z, tol_raw)
        && close(a.r2.x, b.r2.x, tol_raw) && close(a.r2.y, b.r2.y, tol_raw)
        && close(a.r2.z, b.r2.z, tol_raw)
}

fn approx_mat3(a: Mat3, b: Mat3) -> bool {
    approx(a.r0.x, b.r0.x) && approx(a.r0.y, b.r0.y) && approx(a.r0.z, b.r0.z)
        && approx(a.r1.x, b.r1.x) && approx(a.r1.y, b.r1.y) && approx(a.r1.z, b.r1.z)
        && approx(a.r2.x, b.r2.x) && approx(a.r2.y, b.r2.y) && approx(a.r2.z, b.r2.z)
}

#[test]
fn quaternion_inverse() {
    let q0 = Quat::new(s(20), s(232), s(-858), s(6429));
    let q1 = q0.inverse();
    let prod = q0.mul_quat(q1);
    assert!(approx(Scalar::one(), Quat::identity().dot(prod)));
}

#[test]
fn quat_to_mat() {
    let m0 = Mat3::from_quat(Quat::new(s(0), s(1), s(0), s(0)));
    let m1 = Mat3::new_from_vec3s(Vec3::right(), Vec3::up(), Vec3::forward());
    let expected = Mat3::new_from_vec3s(Vec3::right(), Vec3::up().neg(), Vec3::forward().neg());
    assert_eq!(expected, m0.mul_mat(m1));
}

#[test]
fn quat_rotation_order_verification() {
    let q0 = Quat::get_quat_flex_euler_deg(s(45), s(45), s(45), RotationOrder::HPB);
    let q1 = Quat::get_quat_euler_obj_upr_deg(s(45), s(45), s(45));
    assert!(approx_quat(q0, q1));
}

#[test]
fn quat_euler() {
    let input = Vec3::new(sr(752, 10), s(-123), s(62));
    let q = Quat::get_quat_euler_obj_upr_deg(input.x, input.y, input.z);
    let output = q.get_euler_angles_obj_upr_deg();
    let delta = input.sub(output);
    assert!(delta.length().raw() < 429497);

    // At the gimbal-lock boundary the round trip reproduces an equivalent
    // rotation, not the identical angle triple.
    let input = Vec3::new(s(90), s(0), s(-60));
    let q = Quat::get_quat_euler_obj_upr_deg(input.x, input.y, input.z);
    let output = q.get_euler_angles_obj_upr_deg();
    let q2 = Quat::get_quat_euler_obj_upr_deg(output.x, output.y, output.z);
    assert!(close_mat3(Mat3::from_quat(q), Mat3::from_quat(q2), 429497));
    assert_eq!(output.z, s(0));
}

#[test]
fn quat_matrix_agreement() {
    // The two fused Euler matrix forms are mutual transposes, and the
    // quaternion-to-matrix layout lands on the bank-pitch-heading one, so
    // that is the direct build to compare against.
    let p = sr(752, 10);
    let h = s(-123);
    let b = s(62);
    let from_quat = Mat3::from_quat(Quat::get_quat_euler_obj_upr_deg(p, h, b));
    let direct = Mat3::get_rotation_mat_euler_upr_obj_deg(p, h, b);
    assert!(approx_mat3(from_quat, direct));
}

#[test]
fn slerp_boundaries() {
    let qa = Quat::get_quat_euler_obj_upr_deg(s(10), s(20), s(30));
    let qb = Quat::get_quat_euler_obj_upr_deg(sr(752, 10), s(-123), s(62));
    assert!(approx_quat(qa.slerp(qb, s(0)), qa));
    assert!(approx_quat(qa.slerp(qb, s(1)), qb));
    let t = sr(37, 100);
    assert!(approx_quat(qa.slerp(qa, t), qa));
    // Interpolating nearly coincident rotations is exact at the endpoints.
    assert_eq!(qa.slerp(qa, s(0)), qa);
    assert_eq!(qa.slerp(qa, s(1)), qa);
    // An interpolated rotation stays approximately unit.
    let mid = qa.slerp(qb, sr(1, 2));
    assert!(approx(mid.magnitude_squared(), Scalar::one()));
}

#[test]
fn lerp_follows_endpoints() {
    let qa = Quat::get_quat_euler_obj_upr_deg(s(10), s(20), s(30));
    let qb = Quat::get_quat_euler_obj_upr_deg(s(40), s(50), s(60));
    assert!(approx_quat(qa.lerp(qb, s(0)), qa));
    assert!(approx_quat(qa.lerp(qb, s(1)), qb));
    let mid = qa.lerp(qb, sr(1, 2));
    assert!(approx(mid.magnitude_squared(), Scalar::one()));
}

#[test]
fn shepperd_round_trip() {
    let q = Quat::get_quat_euler_obj_upr_deg(sr(752, 10), s(-123), s(62));
    let q2 = Quat::from_mat3(Mat3::from_quat(q));
    let d = q.dot(q2);
    let neg = d.raw() < 0;
    let mag = if neg { d.neg() } else { d };
    assert!(approx(mag, Scalar::one()));

    // An angle near a half turn exercises the branches away from the real
    // part.
    let q = Quat::get_quat_euler_obj_upr_deg(s(0), s(179), s(0));
    let q2 = Quat::from_mat3(Mat3::from_quat(q));
    let d = q.dot(q2);
    let mag = if d.raw() < 0 { d.neg() } else { d };
    assert!(approx(mag, Scalar::one()));
}

#[test]
fn quat_conjugate_and_norms() {
    let q = Quat::new(s(20), s(232), s(-858), s(6429));
    let prod = q.mul_quat(q.conjugate());
    assert_eq!(prod.v.x, s(0));
    assert_eq!(prod.v.y, s(0));
    assert_eq!(prod.v.z, s(0));
    assert_eq!(prod.w, q.magnitude_squared());

    let n = q.normalized();
    assert!(approx(n.magnitude_squared(), Scalar::one()));
    assert!(n.is_unit());
    assert!(!q.is_pure_unit());
    assert!(Quat::new(s(0), s(1), s(0), s(0)).is_pure());
}

#[test]
fn quat_pow_doubles_angle() {
    let q = Quat::get_quat_euler_obj_upr_deg(s(40), s(0), s(0));
    let squared = q.pow(s(2));
    let direct = q.mul_quat(q);
    assert!(approx(squared.w, direct.w));
    assert!(approx(squared.v.x, direct.v.x));
}

#[test]
fn quat_angle_axis() {
    let axis = Vec3::new(s(0), s(1), s(0));
    let theta = s(60).to_radians();
    let q = Quat::get_quat_from_angle_axis(theta, axis);
    // cos(30 degrees) and sin(30 degrees) in the components.
    assert!(approx(q.w, sr(86602540378, 100000000000)));
    assert!(approx(q.v.y, sr(1, 2)));
    let (n, t) = q.get_angle_axis_from_quat();
    assert!(approx(n.y, Scalar::one()));
    assert_eq!(t.raw(), q.w.raw() * 2);

    let safe = Quat::get_quat_from_angle_axis_safe(theta, Vec3::zero());
    assert_eq!(safe.w, Scalar::one());

    let mut r = Quat::identity();
    r.rotate_around(theta, axis);
    assert!(approx_quat(r, q));
}

#[test]
fn quat_vector_rotation_matches_matrix() {
    let q = Quat::get_quat_euler_obj_upr_deg(s(30), s(40), s(50));
    let v = Vec3::new(s(1), s(2), s(3));
    let by_quat = q.rotate_vec(v);
    let by_mat = Mat3::from_quat(q).transpose().mul_vec(v);
    assert!(approx(by_quat.x, by_mat.x));
    assert!(approx(by_quat.y, by_mat.y));
    assert!(approx(by_quat.z, by_mat.z));
    // A rotation keeps the length.
    assert!(approx(by_quat.length(), v.length()));
}

#[test]
fn quat_normalized_safe_small_input() {
    let tiny = Quat::new(s(0), s(0), s(0), s(0));
    assert_eq!(tiny.normalized_safe(), Quat::identity());
    let q = Quat::new(s(3), s(4), s(0), s(0));
    let n = q.normalized_safe();
    assert!(approx(n.w, sr(3, 5)));
    assert!(approx(n.v.x, sr(4, 5)));
}
