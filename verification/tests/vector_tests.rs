use straal::Scalar;
use straal::Vec2;
use straal::Vec3;
use straal::Vec4;

fn s(i: i64) -> Scalar {
    Scalar::from_int(i)
}

fn sr(n: i64, d: i64) -> Scalar {
    Scalar::from_ratio(n, d)
}

fn approx(a: Scalar, b: Scalar) -> bool {
    a.approx_eq_def(b)
}

#[test]
fn vector_instantiation_and_display_testing() {
    let v0 = Vec2::new(s(-2), sr(2322, 10));
    assert_eq!(v0.x, s(-2));
    assert_eq!(v0.y, sr(2322, 10));

    let v0 = Vec3::new(sr(987123, 1000), sr(-5309, 100), sr(1232232, 1000));
    assert_eq!(v0.x, sr(987123, 1000));
    assert_eq!(v0.y, sr(-5309, 100));
    assert_eq!(v0.z, sr(1232232, 1000));

    let v0 = Vec4::new(
        sr(934523463, 100000),
        sr(-95723091232, 1000000),
        sr(-231242232, 1000),
        sr(798543983, 10000),
    );
    assert_eq!(v0.w, sr(798543983, 10000));

    let vec_vec = vec![
        Vec3::new(s(1), s(2), s(3)),
        Vec3::new(s(4), s(5), s(6)),
        Vec3::new(s(7), s(8), s(9)),
    ];
    let mut total = Vec3::zero();
    for v in vec_vec.iter() {
        total = total.add(*v);
    }
    assert_eq!(Vec3::new(s(12), s(15), s(18)), total);

    let i = Vec3::new(s(1), s(-1), s(0)).normalized();
    let n = Vec3::new(s(0), s(1), s(0));
    let r = Vec3::refract(i, n, sr(66666, 100000));
    println!("{:?}", r);
    assert!(r.y.raw() < 0);
}

#[test]
fn vector_dot_cross_and_length() {
    let a = Vec3::new(s(1), s(2), s(3));
    let b = Vec3::new(s(4), s(-5), s(6));
    assert_eq!(a.dot(b), s(12));
    let c = a.cross(b);
    assert_eq!(c, Vec3::new(s(27), s(6), s(-13)));
    // The cross product is orthogonal to both factors.
    assert_eq!(c.dot(a), s(0));
    assert_eq!(c.dot(b), s(0));

    let v = Vec2::new(s(3), s(4));
    assert_eq!(v.length_squared(), s(25));
    assert_eq!(v.length(), s(5));
    assert_eq!(Vec2::distance(Vec2::zero(), v), s(5));
}

#[test]
fn vector_normalize_and_unit() {
    let mut v = Vec3::new(s(2), s(0), s(0));
    assert!(!v.is_unit());
    v.normalize();
    assert_eq!(v, Vec3::new(s(1), s(0), s(0)));
    assert!(v.is_unit());

    let w = Vec4::new(s(1), s(1), s(1), s(1)).normalized();
    assert!(approx(w.x, sr(1, 2)));
    assert!(w.is_unit());
}

#[test]
fn vector_reflect() {
    let n = Vec3::new(s(0), s(1), s(0));
    let i = Vec3::new(s(1), s(1), s(0));
    let r = Vec3::reflect(i, n);
    // n * 2 * dot(n, i) - i mirrors over the normal.
    assert_eq!(r, Vec3::new(s(-1), s(1), s(0)));
}

#[test]
fn vector_mix_and_clamp() {
    let a = Vec2::new(s(0), s(0));
    let b = Vec2::new(s(10), s(20));
    let m = Vec2::mix_all(a, b, sr(1, 4));
    assert!(approx(m.x, sr(15, 2)));
    assert!(approx(m.y, s(15)));

    let c = Vec3::clamp_all(Vec3::new(s(-5), s(3), s(12)), s(0), s(10));
    assert_eq!(c, Vec3::new(s(0), s(3), s(10)));

    let g = Vec4::new(s(9), s(-2), s(7), s(7));
    assert_eq!(g.get_largest(), s(9));
    assert_eq!(g.get_smallest(), s(-2));
    assert_eq!(g.get_largest_index(), 0);
    assert_eq!(g.get_smallest_index(), 3);
    assert_eq!(Vec3::new(s(1), s(5), s(2)).get_largest_index(), 1);
    assert_eq!(Vec2::size(), 2);
    assert_eq!(Vec3::size(), 3);
    assert_eq!(Vec4::size(), 4);
}
