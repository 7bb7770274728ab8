use straal::Mat3;
use straal::Scalar;
use straal::scalar::DEF_EPSILON_RAW;
use straal::scalar::SCALE;
use straal::trig::HALF_PI_RAW;
use straal::trig::PI_RAW;
use straal::trig::QUARTER_PI_RAW;

fn s(i: i64) -> Scalar {
    Scalar::from_int(i)
}

fn sr(n: i64, d: i64) -> Scalar {
    Scalar::from_ratio(n, d)
}

fn approx(a: Scalar, b: Scalar) -> bool {
    a.approx_eq_def(b)
}

fn close(a: Scalar, b: Scalar, tol_raw: i64) -> bool {
    let d = a.raw() - b.raw();
    -tol_raw < d && d < tol_raw
}

#[test]
fn scalar_construction_and_arithmetic() {
    assert_eq!(Scalar::zero().raw(), 0);
    assert_eq!(Scalar::one().raw(), SCALE);
    assert_eq!(s(3).add(s(4)), s(7));
    assert_eq!(s(3).sub(s(4)), s(-1));
    assert_eq!(s(3).mul(s(4)), s(12));
    assert_eq!(s(-3).mul(s(4)), s(-12));
    assert_eq!(s(12).div(s(4)), s(3));
    assert_eq!(sr(1, 2).raw(), SCALE / 2);
    assert_eq!(sr(-1, 2).raw(), -(SCALE / 2));
    assert_eq!(s(-5).abs(), s(5));
    assert_eq!(s(-5).neg(), s(5));
    assert_eq!(s(-5).min(s(3)), s(-5));
    assert_eq!(s(-5).max(s(3)), s(3));
    assert_eq!(Scalar::from_raw(42).raw(), 42);
}

#[test]
fn scalar_sqrt() {
    assert_eq!(s(49).sqrt(), s(7));
    assert_eq!(s(0).sqrt(), s(0));
    assert!(approx(s(2).sqrt(), sr(141421356, 100000000)));
}

#[test]
fn scalar_trig_values() {
    assert_eq!(s(0).sin(), s(0));
    assert!(approx(s(0).cos(), Scalar::one()));
    let thirty = s(30).to_radians();
    assert!(approx(thirty.sin(), sr(1, 2)));
    assert!(approx(thirty.cos(), sr(86602540378, 100000000000)));
    let pi = Scalar::from_raw(PI_RAW);
    assert!(close(pi.sin(), s(0), 100000));
    assert!(approx(pi.cos(), s(-1)));
    // Negative angles mirror.
    assert!(approx(thirty.neg().sin(), sr(-1, 2)));
}

#[test]
fn scalar_inverse_trig() {
    assert!(close(s(1).atan2(s(1)), Scalar::from_raw(QUARTER_PI_RAW), 1000));
    assert!(close(s(0).atan2(s(-5)), Scalar::from_raw(PI_RAW), 1000));
    assert!(close(s(1).atan2(s(0)), Scalar::from_raw(HALF_PI_RAW), 1000));
    assert_eq!(s(0).atan2(s(0)).raw(), 0);
    assert!(close(sr(1, 2).asin(), s(30).to_radians(), 2000));
    assert!(close(s(1).asin(), Scalar::from_raw(HALF_PI_RAW), 2000));
    assert!(close(sr(1, 2).acos(), s(60).to_radians(), 2000));
}

#[test]
fn scalar_angle_conversions() {
    let d = s(90);
    let r = d.to_radians();
    assert!(close(r, Scalar::from_raw(HALF_PI_RAW), 2000));
    assert!(approx(r.to_degrees(), d));
}

#[test]
fn scalar_approx_eq_branches() {
    assert!(s(5).approx_eq_def(s(5)));
    assert!(Scalar::from_raw(10).approx_eq_def(Scalar::zero()));
    assert!(!sr(11, 10).approx_eq_def(Scalar::one()));
    assert!(Scalar::one().approx_eq_def(Scalar::from_raw(SCALE + 40)));
    assert_eq!(Scalar::default_epsilon().raw(), DEF_EPSILON_RAW);
}

#[test]
fn matrix_euler_round_trip() {
    let input = [sr(752, 10), s(-123), s(62)];
    let m = Mat3::get_rotation_mat_euler_obj_upr_deg(input[0], input[1], input[2]);
    let e = m.get_euler_angles_obj_upr_deg();
    assert!(close(e.x, input[0], 50000));
    assert!(close(e.y, input[1], 50000));
    assert!(close(e.z, input[2], 50000));

    // Inside the gimbal band the angles collapse onto pitch and heading,
    // but the recovered triple still builds the same rotation.
    let m = Mat3::get_rotation_mat_euler_obj_upr_deg(s(90), s(0), s(-60));
    let e = m.get_euler_angles_obj_upr_deg();
    assert_eq!(e.z, s(0));
    let m2 = Mat3::get_rotation_mat_euler_obj_upr_deg(e.x, e.y, e.z);
    let tol = 429497;
    assert!(close(m.r0.x, m2.r0.x, tol) && close(m.r0.y, m2.r0.y, tol)
        && close(m.r0.z, m2.r0.z, tol));
    assert!(close(m.r1.x, m2.r1.x, tol) && close(m.r1.y, m2.r1.y, tol)
        && close(m.r1.z, m2.r1.z, tol));
    assert!(close(m.r2.x, m2.r2.x, tol) && close(m.r2.y, m2.r2.y, tol)
        && close(m.r2.z, m2.r2.z, tol));
}
