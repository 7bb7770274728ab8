//! 3x3 row-major matrices of fixed-point scalars: the rotation workhorse.

use vstd::prelude::*;
use crate::RotationOrder;
use crate::SingularMatrix;
use crate::scalar::Scalar;
use crate::scalar::DEF_EPSILON_RAW;
use crate::scalar::DEG_TO_RAD_RAW;
use crate::scalar::RAD_TO_DEG_RAW;
use crate::scalar::SCALE;
use crate::scalar::div_v;
use crate::scalar::fits;
use crate::scalar::iabs;
use crate::scalar::lemma_mul_v_bound;
use crate::scalar::lemma_mul_v_one;
use crate::scalar::lemma_mul_v_zero;
use crate::scalar::mul_v;
use crate::trig::HALF_PI_RAW;
use crate::trig::asin_v;
use crate::trig::atan2_v;
use crate::trig::cos_v;
use crate::trig::sin_v;
use crate::vec3::Vec3;
use crate::vec3::Vec3V;
use crate::vec3::dot3_v;
use crate::vec3::dot3_fits;
use crate::vec3::is_unit3_v;

verus! {

/// Raw value of 0.9999, the gimbal-lock threshold on the pitch sine.
pub const ALMOST_ONE_RAW: i64 = 4294537799;

/// Magnitude bound that every sine or cosine result respects.
pub const TRIG_BOUND: i64 = 10000000000;

/// Mathematical model of a `Mat3`: its three rows.
pub ghost struct Mat3V {
    pub r0: Vec3V,
    pub r1: Vec3V,
    pub r2: Vec3V,
}

/// Model of the identity matrix.
pub open spec fn mat3_identity_v() -> Mat3V {
    Mat3V {
        r0: Vec3V { x: SCALE as int, y: 0, z: 0 },
        r1: Vec3V { x: 0, y: SCALE as int, z: 0 },
        r2: Vec3V { x: 0, y: 0, z: SCALE as int },
    }
}

/// First column of a modelled matrix.
pub open spec fn mat3_colx(m: Mat3V) -> Vec3V {
    Vec3V { x: m.r0.x, y: m.r1.x, z: m.r2.x }
}

/// Second column of a modelled matrix.
pub open spec fn mat3_coly(m: Mat3V) -> Vec3V {
    Vec3V { x: m.r0.y, y: m.r1.y, z: m.r2.y }
}

/// Third column of a modelled matrix.
pub open spec fn mat3_colz(m: Mat3V) -> Vec3V {
    Vec3V { x: m.r0.z, y: m.r1.z, z: m.r2.z }
}

/// Model of the transpose.
pub open spec fn mat3_transpose_v(m: Mat3V) -> Mat3V {
    Mat3V { r0: mat3_colx(m), r1: mat3_coly(m), r2: mat3_colz(m) }
}

/// A 2x2 cofactor: the difference of two raw products.
pub open spec fn cof2_v(a: int, b: int, c: int, d: int) -> int {
    mul_v(a, b) - mul_v(c, d)
}

/// All intermediates of a 2x2 cofactor, and its negation, are representable.
pub open spec fn cof2_fits(a: int, b: int, c: int, d: int) -> bool {
    fits(mul_v(a, b)) && fits(mul_v(c, d)) && fits(cof2_v(a, b, c, d)) && fits(
        -cof2_v(a, b, c, d),
    )
}

/// Raw determinant: cofactor expansion along the first column.
pub open spec fn det3_v(m: Mat3V) -> int {
    mul_v(m.r0.x, cof2_v(m.r1.y, m.r2.z, m.r2.y, m.r1.z)) - mul_v(
        m.r1.x,
        cof2_v(m.r0.y, m.r2.z, m.r2.y, m.r0.z),
    ) + mul_v(m.r2.x, cof2_v(m.r0.y, m.r1.z, m.r1.y, m.r0.z))
}

/// All intermediates of `det3_v` are representable.
pub open spec fn det3_fits(m: Mat3V) -> bool {
    cof2_fits(m.r1.y, m.r2.z, m.r2.y, m.r1.z) && cof2_fits(m.r0.y, m.r2.z, m.r2.y, m.r0.z)
        && cof2_fits(m.r0.y, m.r1.z, m.r1.y, m.r0.z) && fits(
        mul_v(m.r0.x, cof2_v(m.r1.y, m.r2.z, m.r2.y, m.r1.z)),
    ) && fits(mul_v(m.r1.x, cof2_v(m.r0.y, m.r2.z, m.r2.y, m.r0.z))) && fits(
        mul_v(m.r2.x, cof2_v(m.r0.y, m.r1.z, m.r1.y, m.r0.z)),
    ) && fits(
        mul_v(m.r0.x, cof2_v(m.r1.y, m.r2.z, m.r2.y, m.r1.z)) - mul_v(
            m.r1.x,
            cof2_v(m.r0.y, m.r2.z, m.r2.y, m.r0.z),
        ),
    ) && fits(det3_v(m))
}

/// Model of the adjugate: the transposed cofactor matrix with the
/// checkerboard sign pattern.
pub open spec fn adj3_v(m: Mat3V) -> Mat3V {
    Mat3V {
        r0: Vec3V {
            x: cof2_v(m.r1.y, m.r2.z, m.r1.z, m.r2.y),
            y: -cof2_v(m.r0.y, m.r2.z, m.r0.z, m.r2.y),
            z: cof2_v(m.r0.y, m.r1.z, m.r0.z, m.r1.y),
        },
        r1: Vec3V {
            x: -cof2_v(m.r1.x, m.r2.z, m.r1.z, m.r2.x),
            y: cof2_v(m.r0.x, m.r2.z, m.r0.z, m.r2.x),
            z: -cof2_v(m.r0.x, m.r1.z, m.r0.z, m.r1.x),
        },
        r2: Vec3V {
            x: cof2_v(m.r1.x, m.r2.y, m.r1.y, m.r2.x),
            y: -cof2_v(m.r0.x, m.r2.y, m.r0.y, m.r2.x),
            z: cof2_v(m.r0.x, m.r1.y, m.r0.y, m.r1.x),
        },
    }
}

/// All intermediates of `adj3_v` are representable.
pub open spec fn adj3_fits(m: Mat3V) -> bool {
    cof2_fits(m.r1.y, m.r2.z, m.r1.z, m.r2.y) && cof2_fits(m.r0.y, m.r2.z, m.r0.z, m.r2.y)
        && cof2_fits(m.r0.y, m.r1.z, m.r0.z, m.r1.y) && cof2_fits(m.r1.x, m.r2.z, m.r1.z, m.r2.x)
        && cof2_fits(m.r0.x, m.r2.z, m.r0.z, m.r2.x) && cof2_fits(m.r0.x, m.r1.z, m.r0.z, m.r1.x)
        && cof2_fits(m.r1.x, m.r2.y, m.r1.y, m.r2.x) && cof2_fits(m.r0.x, m.r2.y, m.r0.y, m.r2.x)
        && cof2_fits(m.r0.x, m.r1.y, m.r0.y, m.r1.x)
}

/// Model of the matrix product: row-by-column dot products.
pub open spec fn mat3_mul_v(a: Mat3V, b: Mat3V) -> Mat3V {
    Mat3V {
        r0: Vec3V {
            x: dot3_v(a.r0, mat3_colx(b)),
            y: dot3_v(a.r0, mat3_coly(b)),
            z: dot3_v(a.r0, mat3_colz(b)),
        },
        r1: Vec3V {
            x: dot3_v(a.r1, mat3_colx(b)),
            y: dot3_v(a.r1, mat3_coly(b)),
            z: dot3_v(a.r1, mat3_colz(b)),
        },
        r2: Vec3V {
            x: dot3_v(a.r2, mat3_colx(b)),
            y: dot3_v(a.r2, mat3_coly(b)),
            z: dot3_v(a.r2, mat3_colz(b)),
        },
    }
}

/// All intermediates of `mat3_mul_v` are representable.
pub open spec fn mat3_mul_fits(a: Mat3V, b: Mat3V) -> bool {
    dot3_fits(a.r0, mat3_colx(b)) && dot3_fits(a.r0, mat3_coly(b)) && dot3_fits(
        a.r0,
        mat3_colz(b),
    ) && dot3_fits(a.r1, mat3_colx(b)) && dot3_fits(a.r1, mat3_coly(b)) && dot3_fits(
        a.r1,
        mat3_colz(b),
    ) && dot3_fits(a.r2, mat3_colx(b)) && dot3_fits(a.r2, mat3_coly(b)) && dot3_fits(
        a.r2,
        mat3_colz(b),
    )
}

/// Whether every entry of the modelled matrix is representable.
pub open spec fn mat3_fits(m: Mat3V) -> bool {
    fits(m.r0.x) && fits(m.r0.y) && fits(m.r0.z) && fits(m.r1.x) && fits(m.r1.y) && fits(m.r1.z)
        && fits(m.r2.x) && fits(m.r2.y) && fits(m.r2.z)
}

/// Whether every entry of the modelled matrix is bounded by `b` in magnitude.
pub open spec fn mat3_bounded(m: Mat3V, b: int) -> bool {
    iabs(m.r0.x) <= b && iabs(m.r0.y) <= b && iabs(m.r0.z) <= b && iabs(m.r1.x) <= b && iabs(
        m.r1.y,
    ) <= b && iabs(m.r1.z) <= b && iabs(m.r2.x) <= b && iabs(m.r2.y) <= b && iabs(m.r2.z) <= b
}

/// Whether the modelled matrix counts as singular: its determinant lies
/// within the default tolerance of zero.
pub open spec fn mat3_singular_v(m: Mat3V) -> bool {
    iabs(det3_v(m)) < DEF_EPSILON_RAW
}

/// Model of the inverse: the adjugate divided entrywise by the determinant.
pub open spec fn mat3_inverse_v(m: Mat3V) -> Mat3V {
    let d = det3_v(m);
    let a = adj3_v(m);
    Mat3V {
        r0: Vec3V { x: div_v(a.r0.x, d), y: div_v(a.r0.y, d), z: div_v(a.r0.z, d) },
        r1: Vec3V { x: div_v(a.r1.x, d), y: div_v(a.r1.y, d), z: div_v(a.r1.z, d) },
        r2: Vec3V { x: div_v(a.r2.x, d), y: div_v(a.r2.y, d), z: div_v(a.r2.z, d) },
    }
}

/// All intermediates of the inverse are representable.
pub open spec fn mat3_inverse_fits(m: Mat3V) -> bool {
    let d = det3_v(m);
    let a = adj3_v(m);
    det3_fits(m) && adj3_fits(m) && (d != 0 ==> fits(div_v(a.r0.x, d)) && fits(div_v(a.r0.y, d))
        && fits(div_v(a.r0.z, d)) && fits(div_v(a.r1.x, d)) && fits(div_v(a.r1.y, d)) && fits(
        div_v(a.r1.z, d),
    ) && fits(div_v(a.r2.x, d)) && fits(div_v(a.r2.y, d)) && fits(div_v(a.r2.z, d)))
}

/// Model of the rotation matrix composed in the order heading, pitch, bank
/// around the cardinal axes (the object-to-upright convention), written as
/// the fused closed form the builder computes.
pub open spec fn rot3_obj_upr_v(p: int, h: int, b: int) -> Mat3V {
    let sp = sin_v(p);
    let cp = cos_v(p);
    let sh = sin_v(h);
    let ch = cos_v(h);
    let sb = sin_v(b);
    let cb = cos_v(b);
    Mat3V {
        r0: Vec3V {
            x: mul_v(ch, cb) + mul_v(mul_v(sh, sp), sb),
            y: -mul_v(ch, sb) + mul_v(mul_v(sh, sp), cb),
            z: mul_v(sh, cp),
        },
        r1: Vec3V { x: mul_v(sb, cp), y: mul_v(cb, cp), z: -sp },
        r2: Vec3V {
            x: -mul_v(sh, cb) + mul_v(mul_v(ch, sp), sb),
            y: mul_v(sb, sh) + mul_v(mul_v(ch, sp), cb),
            z: mul_v(ch, cp),
        },
    }
}

/// Model of the rotation matrix composed in the order bank, pitch, heading
/// (the upright-to-object convention), written as the fused closed form the
/// builder computes.
pub open spec fn rot3_upr_obj_v(p: int, h: int, b: int) -> Mat3V {
    let sp = sin_v(p);
    let cp = cos_v(p);
    let sh = sin_v(h);
    let ch = cos_v(h);
    let sb = sin_v(b);
    let cb = cos_v(b);
    Mat3V {
        r0: Vec3V {
            x: mul_v(ch, cb) + mul_v(mul_v(sh, sp), sb),
            y: mul_v(sb, cp),
            z: -mul_v(sh, cb) + mul_v(mul_v(ch, sp), sb),
        },
        r1: Vec3V {
            x: -mul_v(ch, sb) + mul_v(mul_v(sh, sp), cb),
            y: mul_v(cb, cp),
            z: mul_v(sb, sh) + mul_v(mul_v(ch, sp), cb),
        },
        r2: Vec3V { x: mul_v(sh, cp), y: -sp, z: mul_v(ch, cp) },
    }
}

/// Model of the elemental rotation about the x axis (pitch).
pub open spec fn rot3_pitch_v(p: int) -> Mat3V {
    Mat3V {
        r0: Vec3V { x: SCALE as int, y: 0, z: 0 },
        r1: Vec3V { x: 0, y: cos_v(p), z: sin_v(p) },
        r2: Vec3V { x: 0, y: -sin_v(p), z: cos_v(p) },
    }
}

/// Model of the elemental rotation about the y axis (heading).
pub open spec fn rot3_heading_v(h: int) -> Mat3V {
    Mat3V {
        r0: Vec3V { x: cos_v(h), y: 0, z: -sin_v(h) },
        r1: Vec3V { x: 0, y: SCALE as int, z: 0 },
        r2: Vec3V { x: sin_v(h), y: 0, z: cos_v(h) },
    }
}

/// Model of the elemental rotation about the z axis (bank).
pub open spec fn rot3_bank_v(b: int) -> Mat3V {
    Mat3V {
        r0: Vec3V { x: cos_v(b), y: sin_v(b), z: 0 },
        r1: Vec3V { x: -sin_v(b), y: cos_v(b), z: 0 },
        r2: Vec3V { x: 0, y: 0, z: SCALE as int },
    }
}

/// Model of the flexible Euler rotation: the product of the three elemental
/// rotations in the requested order.
pub open spec fn rot3_flex_v(angles: Vec3V, order: RotationOrder) -> Mat3V {
    let p = rot3_pitch_v(angles.x);
    let h = rot3_heading_v(angles.y);
    let b = rot3_bank_v(angles.z);
    match order {
        RotationOrder::PHB => mat3_mul_v(mat3_mul_v(p, h), b),
        RotationOrder::PBH => mat3_mul_v(mat3_mul_v(p, b), h),
        RotationOrder::HPB => mat3_mul_v(mat3_mul_v(h, p), b),
        RotationOrder::HBP => mat3_mul_v(mat3_mul_v(h, b), p),
        RotationOrder::BPH => mat3_mul_v(mat3_mul_v(b, p), h),
        RotationOrder::BHP => mat3_mul_v(mat3_mul_v(b, h), p),
    }
}

/// Model of the Euler angles read back from an object-to-upright rotation
/// matrix: pitch from the sine stored in the matrix, heading and bank from
/// the quadrant-correct arctangents, with bank pinned to zero in the
/// gimbal-lock band, where heading absorbs the bank with a sign that
/// follows the pole.
pub open spec fn euler3_obj_upr_v(m: Mat3V) -> Vec3V {
    let sp = -m.r1.z;
    let pitch = if sp <= -(SCALE as int) {
        -(HALF_PI_RAW as int)
    } else if sp >= SCALE as int {
        HALF_PI_RAW as int
    } else {
        asin_v(sp)
    };
    if iabs(sp) > ALMOST_ONE_RAW {
        let g = atan2_v(m.r0.y, m.r0.x);
        Vec3V {
            x: pitch,
            y: if sp > 0 {
                g
            } else {
                -g
            },
            z: 0,
        }
    } else {
        Vec3V { x: pitch, y: atan2_v(m.r0.z, m.r2.z), z: atan2_v(m.r1.x, m.r1.y) }
    }
}

/// Model of the rotation about a unit axis `n` by `theta`, by the
/// angle-axis (Rodrigues) closed form as the builder computes it.
pub open spec fn rot3_angle_axis_v(n: Vec3V, theta: int) -> Mat3V {
    let ct = cos_v(theta);
    let st = sin_v(theta);
    let pc = (SCALE as int) - ct;
    Mat3V {
        r0: Vec3V {
            x: mul_v(mul_v(n.x, n.x), pc) + ct,
            y: mul_v(mul_v(n.x, n.y), pc) + mul_v(n.z, st),
            z: mul_v(mul_v(n.x, n.z), pc) - mul_v(n.y, st),
        },
        r1: Vec3V {
            x: mul_v(mul_v(n.x, n.y), pc) - mul_v(n.z, st),
            y: mul_v(mul_v(n.y, n.y), pc) + ct,
            z: mul_v(mul_v(n.y, n.z), pc) + mul_v(n.x, st),
        },
        r2: Vec3V {
            x: mul_v(mul_v(n.x, n.z), pc) + mul_v(n.y, st),
            y: mul_v(mul_v(n.y, n.z), pc) - mul_v(n.x, st),
            z: mul_v(mul_v(n.z, n.z), pc) + ct,
        },
    }
}

/// Model of the scale matrix with one factor per axis.
pub open spec fn scale3_uniform_v(f: Vec3V) -> Mat3V {
    Mat3V {
        r0: Vec3V { x: f.x, y: 0, z: 0 },
        r1: Vec3V { x: 0, y: f.y, z: 0 },
        r2: Vec3V { x: 0, y: 0, z: f.z },
    }
}

/// Model of the scale by `s` along the unit axis `n`.
pub open spec fn scale3_axis_v(n: Vec3V, s: int) -> Mat3V {
    let k = s - (SCALE as int);
    Mat3V {
        r0: Vec3V {
            x: (SCALE as int) + mul_v(mul_v(k, n.x), n.x),
            y: mul_v(mul_v(k, n.x), n.y),
            z: mul_v(mul_v(k, n.x), n.z),
        },
        r1: Vec3V {
            x: mul_v(mul_v(k, n.x), n.y),
            y: (SCALE as int) + mul_v(mul_v(k, n.y), n.y),
            z: mul_v(mul_v(k, n.y), n.z),
        },
        r2: Vec3V {
            x: mul_v(mul_v(k, n.x), n.z),
            y: mul_v(mul_v(k, n.z), n.y),
            z: (SCALE as int) + mul_v(mul_v(k, n.z), n.z),
        },
    }
}

/// All intermediates of `scale3_axis_v` are representable.
pub open spec fn scale3_axis_fits(n: Vec3V, s: int) -> bool {
    let k = s - (SCALE as int);
    fits(k) && fits(mul_v(k, n.x)) && fits(mul_v(k, n.y)) && fits(mul_v(k, n.z)) && fits(
        mul_v(mul_v(k, n.x), n.x),
    ) && fits(mul_v(mul_v(k, n.x), n.y)) && fits(mul_v(mul_v(k, n.x), n.z)) && fits(
        mul_v(mul_v(k, n.y), n.y),
    ) && fits(mul_v(mul_v(k, n.y), n.z)) && fits(mul_v(mul_v(k, n.z), n.y)) && fits(
        mul_v(mul_v(k, n.z), n.z),
    ) && fits((SCALE as int) + mul_v(mul_v(k, n.x), n.x)) && fits(
        (SCALE as int) + mul_v(mul_v(k, n.y), n.y),
    ) && fits((SCALE as int) + mul_v(mul_v(k, n.z), n.z))
}

/// A dot product of vectors bounded by `ba` and `bb` stays within `3 * c`
/// when `ba * bb <= c * SCALE`, and none of its intermediates overflows.
pub proof fn lemma_dot3_bounded(a: Vec3V, b: Vec3V, ba: int, bb: int, c: int)
    requires
        iabs(a.x) <= ba,
        iabs(a.y) <= ba,
        iabs(a.z) <= ba,
        iabs(b.x) <= bb,
        iabs(b.y) <= bb,
        iabs(b.z) <= bb,
        ba * bb <= c * (SCALE as int),
        0 <= c,
        3 * c <= i64::MAX,
    ensures
        dot3_fits(a, b),
        iabs(dot3_v(a, b)) <= 3 * c,
{
    lemma_mul_v_bound(a.x, b.x, ba, bb, c);
    lemma_mul_v_bound(a.y, b.y, ba, bb, c);
    lemma_mul_v_bound(a.z, b.z, ba, bb, c);
}

/// A product of matrices bounded by `ba` and `bb` is bounded by `3 * c`
/// when `ba * bb <= c * SCALE`, and none of its intermediates overflows.
pub proof fn lemma_mat3_mul_bounded(a: Mat3V, b: Mat3V, ba: int, bb: int, c: int)
    requires
        mat3_bounded(a, ba),
        mat3_bounded(b, bb),
        ba * bb <= c * (SCALE as int),
        0 <= c,
        3 * c <= i64::MAX,
    ensures
        mat3_mul_fits(a, b),
        mat3_bounded(mat3_mul_v(a, b), 3 * c),
{
    lemma_dot3_bounded(a.r0, mat3_colx(b), ba, bb, c);
    lemma_dot3_bounded(a.r0, mat3_coly(b), ba, bb, c);
    lemma_dot3_bounded(a.r0, mat3_colz(b), ba, bb, c);
    lemma_dot3_bounded(a.r1, mat3_colx(b), ba, bb, c);
    lemma_dot3_bounded(a.r1, mat3_coly(b), ba, bb, c);
    lemma_dot3_bounded(a.r1, mat3_colz(b), ba, bb, c);
    lemma_dot3_bounded(a.r2, mat3_colx(b), ba, bb, c);
    lemma_dot3_bounded(a.r2, mat3_coly(b), ba, bb, c);
    lemma_dot3_bounded(a.r2, mat3_colz(b), ba, bb, c);
}

/// Multiplying by the identity, on either side, is exact for every
/// representable matrix, and never overflows.
pub proof fn lemma_mat3_mul_identity(m: Mat3V)
    requires
        mat3_fits(m),
    ensures
        mat3_mul_v(m, mat3_identity_v()) == m,
        mat3_mul_v(mat3_identity_v(), m) == m,
        mat3_mul_fits(m, mat3_identity_v()),
        mat3_mul_fits(mat3_identity_v(), m),
{
    lemma_mul_v_one(m.r0.x);
    lemma_mul_v_one(m.r0.y);
    lemma_mul_v_one(m.r0.z);
    lemma_mul_v_one(m.r1.x);
    lemma_mul_v_one(m.r1.y);
    lemma_mul_v_one(m.r1.z);
    lemma_mul_v_one(m.r2.x);
    lemma_mul_v_one(m.r2.y);
    lemma_mul_v_one(m.r2.z);
    lemma_mul_v_zero(m.r0.x);
    lemma_mul_v_zero(m.r0.y);
    lemma_mul_v_zero(m.r0.z);
    lemma_mul_v_zero(m.r1.x);
    lemma_mul_v_zero(m.r1.y);
    lemma_mul_v_zero(m.r1.z);
    lemma_mul_v_zero(m.r2.x);
    lemma_mul_v_zero(m.r2.y);
    lemma_mul_v_zero(m.r2.z);
}

/// Converting any representable angle from degrees to radians never
/// overflows, since the conversion factor is below one.
pub proof fn lemma_deg_to_rad_fits(x: int)
    requires
        fits(x),
    ensures
        fits(mul_v(x, DEG_TO_RAD_RAW as int)),
{
    lemma_mul_v_bound(x, DEG_TO_RAD_RAW as int, 0x8000000000000000, 74961321, 161000000000000000);
}

/// A product of three matrices of sine and cosine entries stays far inside
/// the representable range, at both association steps.
pub proof fn lemma_flex_product_fits(a: Mat3V, b: Mat3V, c: Mat3V)
    requires
        mat3_bounded(a, TRIG_BOUND as int),
        mat3_bounded(b, TRIG_BOUND as int),
        mat3_bounded(c, TRIG_BOUND as int),
    ensures
        mat3_mul_fits(a, b),
        mat3_mul_fits(mat3_mul_v(a, b), c),
{
    lemma_mat3_mul_bounded(a, b, 10000000000, 10000000000, 24000000000);
    lemma_mat3_mul_bounded(mat3_mul_v(a, b), c, 72000000000, 10000000000, 168000000000);
}

/// The two- and three-factor products of sines and cosines that the fused
/// Euler builders form are all bounded.
pub proof fn lemma_fused_products_fit(sp: int, cp: int, sh: int, ch: int, sb: int, cb: int)
    requires
        iabs(sp) <= TRIG_BOUND,
        iabs(cp) <= TRIG_BOUND,
        iabs(sh) <= TRIG_BOUND,
        iabs(ch) <= TRIG_BOUND,
        iabs(sb) <= TRIG_BOUND,
        iabs(cb) <= TRIG_BOUND,
    ensures
        iabs(mul_v(ch, cb)) <= 24000000000,
        iabs(mul_v(sh, sp)) <= 24000000000,
        iabs(mul_v(ch, sb)) <= 24000000000,
        iabs(mul_v(sh, cp)) <= 24000000000,
        iabs(mul_v(sb, cp)) <= 24000000000,
        iabs(mul_v(cb, cp)) <= 24000000000,
        iabs(mul_v(sh, cb)) <= 24000000000,
        iabs(mul_v(ch, sp)) <= 24000000000,
        iabs(mul_v(sb, sh)) <= 24000000000,
        iabs(mul_v(ch, cp)) <= 24000000000,
        iabs(mul_v(mul_v(sh, sp), sb)) <= 56000000000,
        iabs(mul_v(mul_v(sh, sp), cb)) <= 56000000000,
        iabs(mul_v(mul_v(ch, sp), sb)) <= 56000000000,
        iabs(mul_v(mul_v(ch, sp), cb)) <= 56000000000,
{
    lemma_mul_v_bound(ch, cb, 10000000000, 10000000000, 24000000000);
    lemma_mul_v_bound(sh, sp, 10000000000, 10000000000, 24000000000);
    lemma_mul_v_bound(ch, sb, 10000000000, 10000000000, 24000000000);
    lemma_mul_v_bound(sh, cp, 10000000000, 10000000000, 24000000000);
    lemma_mul_v_bound(sb, cp, 10000000000, 10000000000, 24000000000);
    lemma_mul_v_bound(cb, cp, 10000000000, 10000000000, 24000000000);
    lemma_mul_v_bound(sh, cb, 10000000000, 10000000000, 24000000000);
    lemma_mul_v_bound(ch, sp, 10000000000, 10000000000, 24000000000);
    lemma_mul_v_bound(sb, sh, 10000000000, 10000000000, 24000000000);
    lemma_mul_v_bound(ch, cp, 10000000000, 10000000000, 24000000000);
    lemma_mul_v_bound(mul_v(sh, sp), sb, 24000000000, 10000000000, 56000000000);
    lemma_mul_v_bound(mul_v(sh, sp), cb, 24000000000, 10000000000, 56000000000);
    lemma_mul_v_bound(mul_v(ch, sp), sb, 24000000000, 10000000000, 56000000000);
    lemma_mul_v_bound(mul_v(ch, sp), cb, 24000000000, 10000000000, 56000000000);
}

/// The products that the angle-axis builder forms from a unit axis and the
/// sine and cosine of the angle are all bounded.
pub proof fn lemma_angle_axis_products_fit(n: Vec3V, ct: int, st: int)
    requires
        iabs(n.x) <= 2 * SCALE,
        iabs(n.y) <= 2 * SCALE,
        iabs(n.z) <= 2 * SCALE,
        iabs(ct) <= TRIG_BOUND,
        iabs(st) <= TRIG_BOUND,
    ensures
        iabs(mul_v(n.x, n.x)) <= 17179869184,
        iabs(mul_v(n.x, n.y)) <= 17179869184,
        iabs(mul_v(n.x, n.z)) <= 17179869184,
        iabs(mul_v(n.y, n.y)) <= 17179869184,
        iabs(mul_v(n.y, n.z)) <= 17179869184,
        iabs(mul_v(n.z, n.z)) <= 17179869184,
        iabs(mul_v(mul_v(n.x, n.x), (SCALE as int) - ct)) <= 60000000000,
        iabs(mul_v(mul_v(n.x, n.y), (SCALE as int) - ct)) <= 60000000000,
        iabs(mul_v(mul_v(n.x, n.z), (SCALE as int) - ct)) <= 60000000000,
        iabs(mul_v(mul_v(n.y, n.y), (SCALE as int) - ct)) <= 60000000000,
        iabs(mul_v(mul_v(n.y, n.z), (SCALE as int) - ct)) <= 60000000000,
        iabs(mul_v(mul_v(n.z, n.z), (SCALE as int) - ct)) <= 60000000000,
        iabs(mul_v(n.x, st)) <= 20000000000,
        iabs(mul_v(n.y, st)) <= 20000000000,
        iabs(mul_v(n.z, st)) <= 20000000000,
{
    lemma_mul_v_bound(n.x, n.x, 8589934592, 8589934592, 17179869184);
    lemma_mul_v_bound(n.x, n.y, 8589934592, 8589934592, 17179869184);
    lemma_mul_v_bound(n.x, n.z, 8589934592, 8589934592, 17179869184);
    lemma_mul_v_bound(n.y, n.y, 8589934592, 8589934592, 17179869184);
    lemma_mul_v_bound(n.y, n.z, 8589934592, 8589934592, 17179869184);
    lemma_mul_v_bound(n.z, n.z, 8589934592, 8589934592, 17179869184);
    lemma_mul_v_bound(mul_v(n.x, n.x), (SCALE as int) - ct, 17179869184, 15000000000, 60000000000);
    lemma_mul_v_bound(mul_v(n.x, n.y), (SCALE as int) - ct, 17179869184, 15000000000, 60000000000);
    lemma_mul_v_bound(mul_v(n.x, n.z), (SCALE as int) - ct, 17179869184, 15000000000, 60000000000);
    lemma_mul_v_bound(mul_v(n.y, n.y), (SCALE as int) - ct, 17179869184, 15000000000, 60000000000);
    lemma_mul_v_bound(mul_v(n.y, n.z), (SCALE as int) - ct, 17179869184, 15000000000, 60000000000);
    lemma_mul_v_bound(mul_v(n.z, n.z), (SCALE as int) - ct, 17179869184, 15000000000, 60000000000);
    lemma_mul_v_bound(n.x, st, 8589934592, 10000000000, 20000000000);
    lemma_mul_v_bound(n.y, st, 8589934592, 10000000000, 20000000000);
    lemma_mul_v_bound(n.z, st, 8589934592, 10000000000, 20000000000);
}

/// Five of the nine entries of the fused bank-pitch-heading closed form
/// agree exactly with the elemental triple product: the whole bottom row
/// and the whole middle column, where the products pass through zeros and
/// ones of the elemental matrices and no reassociation occurs.  The four
/// remaining entries regroup a three-factor product and agree only within
/// rounding, which the tests check.
pub proof fn lemma_fused_matches_elemental(p: int, h: int, b: int)
    ensures
        rot3_upr_obj_v(p, h, b).r2 == mat3_mul_v(
            mat3_mul_v(rot3_bank_v(b), rot3_pitch_v(p)),
            rot3_heading_v(h),
        ).r2,
        rot3_upr_obj_v(p, h, b).r0.y == mat3_mul_v(
            mat3_mul_v(rot3_bank_v(b), rot3_pitch_v(p)),
            rot3_heading_v(h),
        ).r0.y,
        rot3_upr_obj_v(p, h, b).r1.y == mat3_mul_v(
            mat3_mul_v(rot3_bank_v(b), rot3_pitch_v(p)),
            rot3_heading_v(h),
        ).r1.y,
{
    lemma_mul_v_one(sin_v(p));
    lemma_mul_v_one(-sin_v(p));
    lemma_mul_v_one(cos_v(p));
    lemma_mul_v_one(sin_v(h));
    lemma_mul_v_one(cos_v(h));
    lemma_mul_v_one(sin_v(b));
    lemma_mul_v_one(-sin_v(b));
    lemma_mul_v_one(cos_v(b));
    lemma_mul_v_zero(sin_v(p));
    lemma_mul_v_zero(-sin_v(p));
    lemma_mul_v_zero(cos_v(p));
    lemma_mul_v_zero(sin_v(h));
    lemma_mul_v_zero(-sin_v(h));
    lemma_mul_v_zero(cos_v(h));
    lemma_mul_v_zero(sin_v(b));
    lemma_mul_v_zero(-sin_v(b));
    lemma_mul_v_zero(cos_v(b));
    lemma_mul_v_zero(mul_v(sin_v(b), cos_v(p)));
    lemma_mul_v_zero(mul_v(cos_v(b), cos_v(p)));
    lemma_mul_v_zero(mul_v(-sin_v(b), cos_v(p)));
    crate::scalar::lemma_mul_v_comm(cos_v(p), sin_v(h));
    crate::scalar::lemma_mul_v_comm(cos_v(p), cos_v(h));
    crate::scalar::lemma_mul_v_comm(sin_v(b), cos_v(p));
    crate::scalar::lemma_mul_v_comm(cos_v(b), cos_v(p));
    crate::scalar::lemma_mul_v_neg(sin_v(p), SCALE as int);
}

/// A 3x3 matrix stored as three rows.
#[derive(Clone, Copy, Debug, PartialEq, Eq, Structural)]
pub struct Mat3 {
    pub r0: Vec3,
    pub r1: Vec3,
    pub r2: Vec3,
}

impl View for Mat3 {
    type V = Mat3V;

    open spec fn view(&self) -> Mat3V {
        Mat3V { r0: self.r0@, r1: self.r1@, r2: self.r2@ }
    }
}

impl Mat3 {
    pub fn identity() -> (r: Mat3)
        ensures
            r@ == mat3_identity_v(),
    {
        Mat3 {
            r0: Vec3 { x: Scalar::one(), y: Scalar::zero(), z: Scalar::zero() },
            r1: Vec3 { x: Scalar::zero(), y: Scalar::one(), z: Scalar::zero() },
            r2: Vec3 { x: Scalar::zero(), y: Scalar::zero(), z: Scalar::one() },
        }
    }

    /// The all-zero matrix.
    pub fn empty() -> (r: Mat3)
        ensures
            r@ == (Mat3V {
                r0: Vec3V { x: 0, y: 0, z: 0 },
                r1: Vec3V { x: 0, y: 0, z: 0 },
                r2: Vec3V { x: 0, y: 0, z: 0 },
            }),
    {
        Mat3 { r0: Vec3::zero(), r1: Vec3::zero(), r2: Vec3::zero() }
    }

    /// Builds the matrix from its nine entries in row-major order.
    pub fn new(
        r0c0: Scalar,
        r0c1: Scalar,
        r0c2: Scalar,
        r1c0: Scalar,
        r1c1: Scalar,
        r1c2: Scalar,
        r2c0: Scalar,
        r2c1: Scalar,
        r2c2: Scalar,
    ) -> (r: Mat3)
        ensures
            r@ == (Mat3V {
                r0: Vec3V { x: r0c0@, y: r0c1@, z: r0c2@ },
                r1: Vec3V { x: r1c0@, y: r1c1@, z: r1c2@ },
                r2: Vec3V { x: r2c0@, y: r2c1@, z: r2c2@ },
            }),
    {
        Mat3 {
            r0: Vec3 { x: r0c0, y: r0c1, z: r0c2 },
            r1: Vec3 { x: r1c0, y: r1c1, z: r1c2 },
            r2: Vec3 { x: r2c0, y: r2c1, z: r2c2 },
        }
    }

    pub fn new_from_vec3s(r0: Vec3, r1: Vec3, r2: Vec3) -> (r: Mat3)
        ensures
            r@ == (Mat3V { r0: r0@, r1: r1@, r2: r2@ }),
    {
        Mat3 { r0, r1, r2 }
    }

    pub fn new_from_arrs(r0: [Scalar; 3], r1: [Scalar; 3], r2: [Scalar; 3]) -> (r: Mat3)
        ensures
            r@ == (Mat3V {
                r0: Vec3V { x: r0[0]@, y: r0[1]@, z: r0[2]@ },
                r1: Vec3V { x: r1[0]@, y: r1[1]@, z: r1[2]@ },
                r2: Vec3V { x: r2[0]@, y: r2[1]@, z: r2[2]@ },
            }),
    {
        Mat3 {
            r0: Vec3 { x: r0[0], y: r0[1], z: r0[2] },
            r1: Vec3 { x: r1[0], y: r1[1], z: r1[2] },
            r2: Vec3 { x: r2[0], y: r2[1], z: r2[2] },
        }
    }

    /// The determinant, by cofactor expansion along the first column.
    pub fn determinant(&self) -> (r: Scalar)
        requires
            det3_fits(self@),
        ensures
            r@ == det3_v(self@),
    {
        let c0 = self.r1.y.mul(self.r2.z).sub(self.r2.y.mul(self.r1.z));
        let c1 = self.r0.y.mul(self.r2.z).sub(self.r2.y.mul(self.r0.z));
        let c2 = self.r0.y.mul(self.r1.z).sub(self.r1.y.mul(self.r0.z));
        self.r0.x.mul(c0).sub(self.r1.x.mul(c1)).add(self.r2.x.mul(c2))
    }

    /// The adjugate: the transposed cofactor matrix.
    pub fn adjoint(&self) -> (r: Mat3)
        requires
            adj3_fits(self@),
        ensures
            r@ == adj3_v(self@),
    {
        Mat3 {
            r0: Vec3 {
                x: self.r1.y.mul(self.r2.z).sub(self.r1.z.mul(self.r2.y)),
                y: self.r0.y.mul(self.r2.z).sub(self.r0.z.mul(self.r2.y)).neg(),
                z: self.r0.y.mul(self.r1.z).sub(self.r0.z.mul(self.r1.y)),
            },
            r1: Vec3 {
                x: self.r1.x.mul(self.r2.z).sub(self.r1.z.mul(self.r2.x)).neg(),
                y: self.r0.x.mul(self.r2.z).sub(self.r0.z.mul(self.r2.x)),
                z: self.r0.x.mul(self.r1.z).sub(self.r0.z.mul(self.r1.x)).neg(),
            },
            r2: Vec3 {
                x: self.r1.x.mul(self.r2.y).sub(self.r1.y.mul(self.r2.x)),
                y: self.r0.x.mul(self.r2.y).sub(self.r0.y.mul(self.r2.x)).neg(),
                z: self.r0.x.mul(self.r1.y).sub(self.r0.y.mul(self.r1.x)),
            },
        }
    }

    /// The inverse, as the adjugate divided by the determinant; a determinant
    /// within the default tolerance of zero is refused as singular.
    pub fn inverse(&self) -> (r: Result<Mat3, SingularMatrix>)
        requires
            mat3_inverse_fits(self@),
        ensures
            r is Err <==> mat3_singular_v(self@),
            r is Ok ==> r->Ok_0@ == mat3_inverse_v(self@),
    {
        let det = self.determinant();
        if -DEF_EPSILON_RAW < det.raw() && det.raw() < DEF_EPSILON_RAW {
            Err(SingularMatrix)
        } else {
            let adj = self.adjoint();
            Ok(
                Mat3 {
                    r0: adj.r0.div_scalar(det),
                    r1: adj.r1.div_scalar(det),
                    r2: adj.r2.div_scalar(det),
                },
            )
        }
    }

    pub fn transpose(&self) -> (r: Mat3)
        ensures
            r@ == mat3_transpose_v(self@),
    {
        Mat3 {
            r0: Vec3 { x: self.r0.x, y: self.r1.x, z: self.r2.x },
            r1: Vec3 { x: self.r0.y, y: self.r1.y, z: self.r2.y },
            r2: Vec3 { x: self.r0.z, y: self.r1.z, z: self.r2.z },
        }
    }

    /// Row-by-column matrix product.
    pub fn mul_mat(self, rhs: Mat3) -> (r: Mat3)
        requires
            mat3_mul_fits(self@, rhs@),
        ensures
            r@ == mat3_mul_v(self@, rhs@),
    {
        let t = rhs.transpose();
        Mat3 {
            r0: Vec3 { x: self.r0.dot(t.r0), y: self.r0.dot(t.r1), z: self.r0.dot(t.r2) },
            r1: Vec3 { x: self.r1.dot(t.r0), y: self.r1.dot(t.r1), z: self.r1.dot(t.r2) },
            r2: Vec3 { x: self.r2.dot(t.r0), y: self.r2.dot(t.r1), z: self.r2.dot(t.r2) },
        }
    }

    /// Product with a column vector on the right.
    pub fn mul_vec(self, rhs: Vec3) -> (r: Vec3)
        requires
            dot3_fits(self@.r0, rhs@),
            dot3_fits(self@.r1, rhs@),
            dot3_fits(self@.r2, rhs@),
        ensures
            r@ == (Vec3V {
                x: dot3_v(self@.r0, rhs@),
                y: dot3_v(self@.r1, rhs@),
                z: dot3_v(self@.r2, rhs@),
            }),
    {
        Vec3 { x: self.r0.dot(rhs), y: self.r1.dot(rhs), z: self.r2.dot(rhs) }
    }

    /// Entrywise product with one scalar.
    pub fn mul_scalar(self, rhs: Scalar) -> (r: Mat3)
        requires
            fits(mul_v(self@.r0.x, rhs@)),
            fits(mul_v(self@.r0.y, rhs@)),
            fits(mul_v(self@.r0.z, rhs@)),
            fits(mul_v(self@.r1.x, rhs@)),
            fits(mul_v(self@.r1.y, rhs@)),
            fits(mul_v(self@.r1.z, rhs@)),
            fits(mul_v(self@.r2.x, rhs@)),
            fits(mul_v(self@.r2.y, rhs@)),
            fits(mul_v(self@.r2.z, rhs@)),
        ensures
            r@ == (Mat3V {
                r0: Vec3V {
                    x: mul_v(self@.r0.x, rhs@),
                    y: mul_v(self@.r0.y, rhs@),
                    z: mul_v(self@.r0.z, rhs@),
                },
                r1: Vec3V {
                    x: mul_v(self@.r1.x, rhs@),
                    y: mul_v(self@.r1.y, rhs@),
                    z: mul_v(self@.r1.z, rhs@),
                },
                r2: Vec3V {
                    x: mul_v(self@.r2.x, rhs@),
                    y: mul_v(self@.r2.y, rhs@),
                    z: mul_v(self@.r2.z, rhs@),
                },
            }),
    {
        Mat3 { r0: self.r0.scale(rhs), r1: self.r1.scale(rhs), r2: self.r2.scale(rhs) }
    }

    /// Rotation matrix from Euler angles in degrees, composed in the
    /// requested order.
    pub fn get_rotation_mat_flex_euler_deg(angles: Vec3, order: RotationOrder) -> (r: Mat3)
        ensures
            r@ == rot3_flex_v(
                Vec3V {
                    x: mul_v(angles@.x, DEG_TO_RAD_RAW as int),
                    y: mul_v(angles@.y, DEG_TO_RAD_RAW as int),
                    z: mul_v(angles@.z, DEG_TO_RAD_RAW as int),
                },
                order,
            ),
    {
        proof {
            lemma_deg_to_rad_fits(angles@.x);
            lemma_deg_to_rad_fits(angles@.y);
            lemma_deg_to_rad_fits(angles@.z);
        }
        let rad = Vec3 {
            x: angles.x.to_radians(),
            y: angles.y.to_radians(),
            z: angles.z.to_radians(),
        };
        Mat3::get_rotation_mat_flex_euler_rad(rad, order)
    }

    /// Rotation matrix from Euler angles in radians: the product of the
    /// three elemental rotations in the requested order.
    pub fn get_rotation_mat_flex_euler_rad(angles: Vec3, order: RotationOrder) -> (r: Mat3)
        ensures
            r@ == rot3_flex_v(angles@, order),
    {
        let sp = angles.x.sin();
        let cp = angles.x.cos();
        let sh = angles.y.sin();
        let ch = angles.y.cos();
        let sb = angles.z.sin();
        let cb = angles.z.cos();
        let p = Mat3 {
            r0: Vec3 { x: Scalar::one(), y: Scalar::zero(), z: Scalar::zero() },
            r1: Vec3 { x: Scalar::zero(), y: cp, z: sp },
            r2: Vec3 { x: Scalar::zero(), y: sp.neg(), z: cp },
        };
        let h = Mat3 {
            r0: Vec3 { x: ch, y: Scalar::zero(), z: sh.neg() },
            r1: Vec3 { x: Scalar::zero(), y: Scalar::one(), z: Scalar::zero() },
            r2: Vec3 { x: sh, y: Scalar::zero(), z: ch },
        };
        let b = Mat3 {
            r0: Vec3 { x: cb, y: sb, z: Scalar::zero() },
            r1: Vec3 { x: sb.neg(), y: cb, z: Scalar::zero() },
            r2: Vec3 { x: Scalar::zero(), y: Scalar::zero(), z: Scalar::one() },
        };
        proof {
            assert(p@ == rot3_pitch_v(angles@.x));
            assert(h@ == rot3_heading_v(angles@.y));
            assert(b@ == rot3_bank_v(angles@.z));
            assert(mat3_bounded(p@, TRIG_BOUND as int));
            assert(mat3_bounded(h@, TRIG_BOUND as int));
            assert(mat3_bounded(b@, TRIG_BOUND as int));
        }
        match order {
            RotationOrder::PHB => {
                proof {
                    lemma_flex_product_fits(p@, h@, b@);
                }
                p.mul_mat(h).mul_mat(b)
            },
            RotationOrder::PBH => {
                proof {
                    lemma_flex_product_fits(p@, b@, h@);
                }
                p.mul_mat(b).mul_mat(h)
            },
            RotationOrder::HPB => {
                proof {
                    lemma_flex_product_fits(h@, p@, b@);
                }
                h.mul_mat(p).mul_mat(b)
            },
            RotationOrder::HBP => {
                proof {
                    lemma_flex_product_fits(h@, b@, p@);
                }
                h.mul_mat(b).mul_mat(p)
            },
            RotationOrder::BPH => {
                proof {
                    lemma_flex_product_fits(b@, p@, h@);
                }
                b.mul_mat(p).mul_mat(h)
            },
            RotationOrder::BHP => {
                proof {
                    lemma_flex_product_fits(b@, h@, p@);
                }
                b.mul_mat(h).mul_mat(p)
            },
        }
    }

    /// Rotation matrix from Euler angles in degrees, in the order bank,
    /// pitch, heading.
    pub fn get_rotation_mat_euler_upr_obj_deg(pitch: Scalar, heading: Scalar, bank: Scalar) -> (r:
        Mat3)
        ensures
            r@ == rot3_upr_obj_v(
                mul_v(pitch@, DEG_TO_RAD_RAW as int),
                mul_v(heading@, DEG_TO_RAD_RAW as int),
                mul_v(bank@, DEG_TO_RAD_RAW as int),
            ),
    {
        proof {
            lemma_deg_to_rad_fits(pitch@);
            lemma_deg_to_rad_fits(heading@);
            lemma_deg_to_rad_fits(bank@);
        }
        Mat3::get_rotation_mat_euler_upr_obj_rad(
            pitch.to_radians(),
            heading.to_radians(),
            bank.to_radians(),
        )
    }

    /// Rotation matrix from Euler angles in radians, composed in the order
    /// bank, pitch, heading around the cardinal axes (handy for cameras),
    /// as one fused closed form.
    pub fn get_rotation_mat_euler_upr_obj_rad(pitch: Scalar, heading: Scalar, bank: Scalar) -> (r:
        Mat3)
        ensures
            r@ == rot3_upr_obj_v(pitch@, heading@, bank@),
    {
        let sp = pitch.sin();
        let cp = pitch.cos();
        let sh = heading.sin();
        let ch = heading.cos();
        let sb = bank.sin();
        let cb = bank.cos();
        proof {
            lemma_fused_products_fit(sp@, cp@, sh@, ch@, sb@, cb@);
        }
        Mat3 {
            r0: Vec3 {
                x: ch.mul(cb).add(sh.mul(sp).mul(sb)),
                y: sb.mul(cp),
                z: sh.mul(cb).neg().add(ch.mul(sp).mul(sb)),
            },
            r1: Vec3 {
                x: ch.mul(sb).neg().add(sh.mul(sp).mul(cb)),
                y: cb.mul(cp),
                z: sb.mul(sh).add(ch.mul(sp).mul(cb)),
            },
            r2: Vec3 { x: sh.mul(cp), y: sp.neg(), z: ch.mul(cp) },
        }
    }

    /// Rotation matrix from Euler angles in degrees, in the order heading,
    /// pitch, bank.
    pub fn get_rotation_mat_euler_obj_upr_deg(pitch: Scalar, heading: Scalar, bank: Scalar) -> (r:
        Mat3)
        ensures
            r@ == rot3_obj_upr_v(
                mul_v(pitch@, DEG_TO_RAD_RAW as int),
                mul_v(heading@, DEG_TO_RAD_RAW as int),
                mul_v(bank@, DEG_TO_RAD_RAW as int),
            ),
    {
        proof {
            lemma_deg_to_rad_fits(pitch@);
            lemma_deg_to_rad_fits(heading@);
            lemma_deg_to_rad_fits(bank@);
        }
        Mat3::get_rotation_mat_euler_obj_upr_rad(
            pitch.to_radians(),
            heading.to_radians(),
            bank.to_radians(),
        )
    }

    /// Rotation matrix from Euler angles in radians, composed in the order
    /// heading, pitch, bank around the cardinal axes, as one fused closed
    /// form.
    pub fn get_rotation_mat_euler_obj_upr_rad(pitch: Scalar, heading: Scalar, bank: Scalar) -> (r:
        Mat3)
        ensures
            r@ == rot3_obj_upr_v(pitch@, heading@, bank@),
    {
        let sp = pitch.sin();
        let cp = pitch.cos();
        let sh = heading.sin();
        let ch = heading.cos();
        let sb = bank.sin();
        let cb = bank.cos();
        proof {
            lemma_fused_products_fit(sp@, cp@, sh@, ch@, sb@, cb@);
        }
        Mat3 {
            r0: Vec3 {
                x: ch.mul(cb).add(sh.mul(sp).mul(sb)),
                y: ch.mul(sb).neg().add(sh.mul(sp).mul(cb)),
                z: sh.mul(cp),
            },
            r1: Vec3 { x: sb.mul(cp), y: cb.mul(cp), z: sp.neg() },
            r2: Vec3 {
                x: sh.mul(cb).neg().add(ch.mul(sp).mul(sb)),
                y: sb.mul(sh).add(ch.mul(sp).mul(cb)),
                z: ch.mul(cp),
            },
        }
    }

    /// Euler angles, in degrees, read back from an object-to-upright
    /// rotation matrix.
    pub fn get_euler_angles_obj_upr_deg(&self) -> (r: Vec3)
        requires
            fits(-self@.r1.z),
        ensures
            r@ == (Vec3V {
                x: mul_v(euler3_obj_upr_v(self@).x, RAD_TO_DEG_RAW as int),
                y: mul_v(euler3_obj_upr_v(self@).y, RAD_TO_DEG_RAW as int),
                z: mul_v(euler3_obj_upr_v(self@).z, RAD_TO_DEG_RAW as int),
            }),
    {
        let e = self.get_euler_angles_obj_upr_rad();
        proof {
            lemma_mul_v_bound(e@.x, RAD_TO_DEG_RAW as int, 20000000000, 246083499208, 1150000000000,
            );
            lemma_mul_v_bound(e@.y, RAD_TO_DEG_RAW as int, 20000000000, 246083499208, 1150000000000,
            );
            lemma_mul_v_bound(e@.z, RAD_TO_DEG_RAW as int, 20000000000, 246083499208, 1150000000000,
            );
        }
        Vec3 { x: e.x.to_degrees(), y: e.y.to_degrees(), z: e.z.to_degrees() }
    }

    /// Euler angles, in radians, read back from an object-to-upright
    /// rotation matrix: pitch from its stored sine (clamped into the
    /// arcsine's domain), heading and bank by quadrant-correct arctangents,
    /// with bank pinned to zero inside the gimbal-lock band.
    pub fn get_euler_angles_obj_upr_rad(&self) -> (r: Vec3)
        requires
            fits(-self@.r1.z),
        ensures
            r@ == euler3_obj_upr_v(self@),
            iabs(r@.x) <= 20000000000,
            iabs(r@.y) <= 20000000000,
            iabs(r@.z) <= 20000000000,
    {
        let sp = self.r1.z.neg();
        let pitch = if sp.raw() <= -SCALE {
            Scalar::from_raw(-HALF_PI_RAW)
        } else if sp.raw() >= SCALE {
            Scalar::from_raw(HALF_PI_RAW)
        } else {
            sp.asin()
        };
        let gimbal = sp.raw() > ALMOST_ONE_RAW || sp.raw() < -ALMOST_ONE_RAW;
        if gimbal {
            let g = self.r0.y.atan2(self.r0.x);
            let heading = if sp.raw() > 0 {
                g
            } else {
                g.neg()
            };
            Vec3 { x: pitch, y: heading, z: Scalar::zero() }
        } else {
            Vec3 { x: pitch, y: self.r0.z.atan2(self.r2.z), z: self.r1.x.atan2(self.r1.y) }
        }
    }

    /// Rotation matrix about an arbitrary unit axis, angle in degrees.
    pub fn get_angle_axis_mat_deg(n: Vec3, theta: Scalar) -> (r: Mat3)
        requires
            is_unit3_v(n@),
            iabs(n@.x) <= 2 * SCALE,
            iabs(n@.y) <= 2 * SCALE,
            iabs(n@.z) <= 2 * SCALE,
        ensures
            r@ == rot3_angle_axis_v(n@, mul_v(theta@, DEG_TO_RAD_RAW as int)),
    {
        proof {
            lemma_deg_to_rad_fits(theta@);
        }
        Mat3::get_angle_axis_mat_rad(n, theta.to_radians())
    }

    /// Rotation matrix about an arbitrary unit axis by `theta` radians,
    /// built componentwise from the angle-axis (Rodrigues) formula.
    pub fn get_angle_axis_mat_rad(n: Vec3, theta: Scalar) -> (r: Mat3)
        requires
            is_unit3_v(n@),
            iabs(n@.x) <= 2 * SCALE,
            iabs(n@.y) <= 2 * SCALE,
            iabs(n@.z) <= 2 * SCALE,
        ensures
            r@ == rot3_angle_axis_v(n@, theta@),
    {
        let ct = theta.cos();
        let st = theta.sin();
        let pc = Scalar::one().sub(ct);
        proof {
            lemma_angle_axis_products_fit(n@, ct@, st@);
        }
        Mat3 {
            r0: Vec3 {
                x: n.x.mul(n.x).mul(pc).add(ct),
                y: n.x.mul(n.y).mul(pc).add(n.z.mul(st)),
                z: n.x.mul(n.z).mul(pc).sub(n.y.mul(st)),
            },
            r1: Vec3 {
                x: n.x.mul(n.y).mul(pc).sub(n.z.mul(st)),
                y: n.y.mul(n.y).mul(pc).add(ct),
                z: n.y.mul(n.z).mul(pc).add(n.x.mul(st)),
            },
            r2: Vec3 {
                x: n.x.mul(n.z).mul(pc).add(n.y.mul(st)),
                y: n.y.mul(n.z).mul(pc).sub(n.x.mul(st)),
                z: n.z.mul(n.z).mul(pc).add(ct),
            },
        }
    }

    /// Diagonal scale matrix with one factor per axis.
    pub fn get_uniform_scale_mat(factors: Vec3) -> (r: Mat3)
        ensures
            r@ == scale3_uniform_v(factors@),
    {
        Mat3 {
            r0: Vec3 { x: factors.x, y: Scalar::zero(), z: Scalar::zero() },
            r1: Vec3 { x: Scalar::zero(), y: factors.y, z: Scalar::zero() },
            r2: Vec3 { x: Scalar::zero(), y: Scalar::zero(), z: factors.z },
        }
    }

    /// Matrix that scales by `s` along the unit axis `n`.
    pub fn get_scale_along_axis_mat(n: Vec3, s: Scalar) -> (r: Mat3)
        requires
            is_unit3_v(n@),
            scale3_axis_fits(n@, s@),
        ensures
            r@ == scale3_axis_v(n@, s@),
    {
        let k = s.sub(Scalar::one());
        Mat3 {
            r0: Vec3 {
                x: Scalar::one().add(k.mul(n.x).mul(n.x)),
                y: k.mul(n.x).mul(n.y),
                z: k.mul(n.x).mul(n.z),
            },
            r1: Vec3 {
                x: k.mul(n.x).mul(n.y),
                y: Scalar::one().add(k.mul(n.y).mul(n.y)),
                z: k.mul(n.y).mul(n.z),
            },
            r2: Vec3 {
                x: k.mul(n.x).mul(n.z),
                y: k.mul(n.z).mul(n.y),
                z: Scalar::one().add(k.mul(n.z).mul(n.z)),
            },
        }
    }

    /// Multiplies `self` in place by a flexible Euler rotation, angles in
    /// degrees.
    pub fn rotate_by_euler_flex_deg(&mut self, angles: Vec3, order: RotationOrder)
        requires
            mat3_mul_fits(
                old(self)@,
                rot3_flex_v(
                    Vec3V {
                        x: mul_v(angles@.x, DEG_TO_RAD_RAW as int),
                        y: mul_v(angles@.y, DEG_TO_RAD_RAW as int),
                        z: mul_v(angles@.z, DEG_TO_RAD_RAW as int),
                    },
                    order,
                ),
            ),
        ensures
            final(self)@ == mat3_mul_v(
                old(self)@,
                rot3_flex_v(
                    Vec3V {
                        x: mul_v(angles@.x, DEG_TO_RAD_RAW as int),
                        y: mul_v(angles@.y, DEG_TO_RAD_RAW as int),
                        z: mul_v(angles@.z, DEG_TO_RAD_RAW as int),
                    },
                    order,
                ),
            ),
    {
        let m = Mat3::get_rotation_mat_flex_euler_deg(angles, order);
        *self = (*self).mul_mat(m);
    }

    /// Multiplies `self` in place by a flexible Euler rotation, angles in
    /// radians.
    pub fn rotate_by_euler_flex_rad(&mut self, angles: Vec3, order: RotationOrder)
        requires
            mat3_mul_fits(old(self)@, rot3_flex_v(angles@, order)),
        ensures
            final(self)@ == mat3_mul_v(old(self)@, rot3_flex_v(angles@, order)),
    {
        let m = Mat3::get_rotation_mat_flex_euler_rad(angles, order);
        *self = (*self).mul_mat(m);
    }

    /// Multiplies `self` in place by an upright-to-object Euler rotation,
    /// angles in degrees.
    pub fn rotate_by_euler_upr_obj_deg(&mut self, pitch: Scalar, heading: Scalar, bank: Scalar)
        requires
            mat3_mul_fits(
                old(self)@,
                rot3_upr_obj_v(
                    mul_v(pitch@, DEG_TO_RAD_RAW as int),
                    mul_v(heading@, DEG_TO_RAD_RAW as int),
                    mul_v(bank@, DEG_TO_RAD_RAW as int),
                ),
            ),
        ensures
            final(self)@ == mat3_mul_v(
                old(self)@,
                rot3_upr_obj_v(
                    mul_v(pitch@, DEG_TO_RAD_RAW as int),
                    mul_v(heading@, DEG_TO_RAD_RAW as int),
                    mul_v(bank@, DEG_TO_RAD_RAW as int),
                ),
            ),
    {
        let m = Mat3::get_rotation_mat_euler_upr_obj_deg(pitch, heading, bank);
        *self = (*self).mul_mat(m);
    }

    /// Multiplies `self` in place by an upright-to-object Euler rotation,
    /// angles in radians.
    pub fn rotate_by_euler_upr_obj_rad(&mut self, pitch: Scalar, heading: Scalar, bank: Scalar)
        requires
            mat3_mul_fits(old(self)@, rot3_upr_obj_v(pitch@, heading@, bank@)),
        ensures
            final(self)@ == mat3_mul_v(old(self)@, rot3_upr_obj_v(pitch@, heading@, bank@)),
    {
        let m = Mat3::get_rotation_mat_euler_upr_obj_rad(pitch, heading, bank);
        *self = (*self).mul_mat(m);
    }

    /// Multiplies `self` in place by an object-to-upright Euler rotation,
    /// angles in degrees.
    pub fn rotate_by_euler_obj_upr_deg(&mut self, pitch: Scalar, heading: Scalar, bank: Scalar)
        requires
            mat3_mul_fits(
                old(self)@,
                rot3_obj_upr_v(
                    mul_v(pitch@, DEG_TO_RAD_RAW as int),
                    mul_v(heading@, DEG_TO_RAD_RAW as int),
                    mul_v(bank@, DEG_TO_RAD_RAW as int),
                ),
            ),
        ensures
            final(self)@ == mat3_mul_v(
                old(self)@,
                rot3_obj_upr_v(
                    mul_v(pitch@, DEG_TO_RAD_RAW as int),
                    mul_v(heading@, DEG_TO_RAD_RAW as int),
                    mul_v(bank@, DEG_TO_RAD_RAW as int),
                ),
            ),
    {
        let m = Mat3::get_rotation_mat_euler_obj_upr_deg(pitch, heading, bank);
        *self = (*self).mul_mat(m);
    }

    /// Multiplies `self` in place by an object-to-upright Euler rotation,
    /// angles in radians.
    pub fn rotate_by_euler_obj_upr_rad(&mut self, pitch: Scalar, heading: Scalar, bank: Scalar)
        requires
            mat3_mul_fits(old(self)@, rot3_obj_upr_v(pitch@, heading@, bank@)),
        ensures
            final(self)@ == mat3_mul_v(old(self)@, rot3_obj_upr_v(pitch@, heading@, bank@)),
    {
        let m = Mat3::get_rotation_mat_euler_obj_upr_rad(pitch, heading, bank);
        *self = (*self).mul_mat(m);
    }

    /// Multiplies `self` in place by a rotation about a unit axis, angle in
    /// degrees.
    pub fn rotate_around_axis_deg(&mut self, n: Vec3, theta: Scalar)
        requires
            is_unit3_v(n@),
            iabs(n@.x) <= 2 * SCALE,
            iabs(n@.y) <= 2 * SCALE,
            iabs(n@.z) <= 2 * SCALE,
            mat3_mul_fits(old(self)@, rot3_angle_axis_v(n@, mul_v(theta@, DEG_TO_RAD_RAW as int))),
        ensures
            final(self)@ == mat3_mul_v(
                old(self)@,
                rot3_angle_axis_v(n@, mul_v(theta@, DEG_TO_RAD_RAW as int)),
            ),
    {
        let m = Mat3::get_angle_axis_mat_deg(n, theta);
        *self = (*self).mul_mat(m);
    }

    /// Multiplies `self` in place by a rotation about a unit axis, angle in
    /// radians.
    pub fn rotate_around_axis_rad(&mut self, n: Vec3, theta: Scalar)
        requires
            is_unit3_v(n@),
            iabs(n@.x) <= 2 * SCALE,
            iabs(n@.y) <= 2 * SCALE,
            iabs(n@.z) <= 2 * SCALE,
            mat3_mul_fits(old(self)@, rot3_angle_axis_v(n@, theta@)),
        ensures
            final(self)@ == mat3_mul_v(old(self)@, rot3_angle_axis_v(n@, theta@)),
    {
        let m = Mat3::get_angle_axis_mat_rad(n, theta);
        *self = (*self).mul_mat(m);
    }

    /// Scales `self` in place by one factor per axis.
    pub fn scale_uniformly(&mut self, factors: Vec3)
        requires
            mat3_mul_fits(old(self)@, scale3_uniform_v(factors@)),
        ensures
            final(self)@ == mat3_mul_v(old(self)@, scale3_uniform_v(factors@)),
    {
        let m = Mat3::get_uniform_scale_mat(factors);
        *self = (*self).mul_mat(m);
    }

    /// Scales `self` in place along the unit axis `n`.
    pub fn scale_along_axis(&mut self, n: Vec3, s: Scalar)
        requires
            is_unit3_v(n@),
            scale3_axis_fits(n@, s@),
            mat3_mul_fits(old(self)@, scale3_axis_v(n@, s@)),
        ensures
            final(self)@ == mat3_mul_v(old(self)@, scale3_axis_v(n@, s@)),
    {
        let m = Mat3::get_scale_along_axis_mat(n, s);
        *self = (*self).mul_mat(m);
    }

    /// Entrywise negation.
    pub fn neg(self) -> (r: Mat3)
        requires
            fits(-self@.r0.x),
            fits(-self@.r0.y),
            fits(-self@.r0.z),
            fits(-self@.r1.x),
            fits(-self@.r1.y),
            fits(-self@.r1.z),
            fits(-self@.r2.x),
            fits(-self@.r2.y),
            fits(-self@.r2.z),
        ensures
            r@ == (Mat3V {
                r0: Vec3V { x: -self@.r0.x, y: -self@.r0.y, z: -self@.r0.z },
                r1: Vec3V { x: -self@.r1.x, y: -self@.r1.y, z: -self@.r1.z },
                r2: Vec3V { x: -self@.r2.x, y: -self@.r2.y, z: -self@.r2.z },
            }),
    {
        Mat3 { r0: self.r0.neg(), r1: self.r1.neg(), r2: self.r2.neg() }
    }
}

} // verus!
