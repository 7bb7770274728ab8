use straal::IVec2;
use straal::IVec3;
use straal::IVec4;
use straal::Scalar;
use straal::Vec2;
use straal::Vec3;
use straal::Vec4;

fn s(i: i64) -> Scalar {
    Scalar::from_int(i)
}

fn sr(n: i64, d: i64) -> Scalar {
    Scalar::from_ratio(n, d)
}

#[test]
fn vec2_gen() {
    let v1 = Vec2::all(s(2));
    let v3 = v1.mul(Vec2::new(s(2), sr(-2, 10)));
    println!("{:?}", v3);
    assert_eq!(v3.x, s(4));
    assert!(v3.y.approx_eq_def(sr(-4, 10)));
}

#[test]
fn vec3_gen() {
    let v1 = Vec3::all(s(2));
    let v3 = v1.mul(Vec3::new(s(2), sr(-2, 10), sr(472, 10)));
    println!("{:?}", v3);
    assert_eq!(v3.x, s(4));
    assert!(v3.z.approx_eq_def(sr(944, 10)));
}

#[test]
fn vec4_gen() {
    let v1 = Vec4::all(s(2));
    let v3 = v1.mul(Vec4::new(s(2), sr(-2, 10), sr(472, 10), s(-652)));
    println!("{:?}", v3);
    assert_eq!(v3.w, s(-1304));
}

#[test]
fn ivec_gen_tests() {
    let v1 = IVec2::all(3);
    let v2 = IVec2::all(2);
    let v3 = v1.div(v2);
    println!("{:?}", v3);
    assert_eq!(v3, IVec2::new(1, 1));
}

#[test]
fn ivec_arithmetic() {
    let a = IVec3::new(1, 2, 3);
    let b = IVec3::new(4, 5, 6);
    assert_eq!(a.dot(b), 32);
    assert_eq!(a.cross(b), IVec3::new(-3, 6, -3));
    assert_eq!(a.add(b), IVec3::new(5, 7, 9));
    assert_eq!(b.sub(a), IVec3::new(3, 3, 3));
    assert_eq!(a.scale(-2), IVec3::new(-2, -4, -6));
    assert!(IVec2::new(0, 1).is_unit());
    assert!(!IVec2::new(1, 1).is_unit());
    assert_eq!(IVec4::new(1, 2, 3, 4).length_squared(), 30);
    // The length of (3, 4) comes back as the exact fixed-point 5.
    assert_eq!(IVec2::new(3, 4).length(), Scalar::from_int(5));
    assert_eq!(IVec3::size(), 3);
    assert_eq!(IVec4::w_only(), IVec4::new(0, 0, 0, 1));
    assert_eq!(IVec3::new(-7, 8, -9).neg(), IVec3::new(7, -8, 9));
    assert_eq!(IVec4::new(10, -7, 9, 4).div_scalar(3), IVec4::new(3, -2, 3, 1));
}
