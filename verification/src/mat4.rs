//! 4x4 row-major matrices of fixed-point scalars.
//!
//! The determinant, adjugate and inverse share the six (respectively
//! eighteen) 2x2 subfactors instead of expanding each 3x3 minor on its own,
//! as the contracts spell out term by term.

use vstd::prelude::*;
use crate::RotationOrder;
use crate::SingularMatrix;
use crate::scalar::Scalar;
use crate::scalar::DEF_EPSILON_RAW;
use crate::scalar::DEG_TO_RAD_RAW;
use crate::scalar::SCALE;
use crate::scalar::div_v;
use crate::scalar::fits;
use crate::scalar::iabs;
use crate::scalar::lemma_mul_v_one;
use crate::scalar::lemma_mul_v_zero;
use crate::scalar::mul_v;
use crate::mat3::Mat3;
use crate::mat3::Mat3V;
use crate::mat3::cof2_v;
use crate::mat3::cof2_fits;
use crate::mat3::rot3_angle_axis_v;
use crate::mat3::rot3_flex_v;
use crate::mat3::rot3_obj_upr_v;
use crate::mat3::rot3_upr_obj_v;
use crate::mat3::scale3_axis_v;
use crate::mat3::scale3_axis_fits;
use crate::mat3::scale3_uniform_v;
use crate::vec3::is_unit3_v;
use crate::vec3::Vec3;
use crate::vec3::Vec3V;
use crate::vec4::Vec4;
use crate::vec4::Vec4V;
use crate::vec4::dot4_v;
use crate::vec4::dot4_fits;

verus! {

/// Mathematical model of a `Mat4`: its four rows.
pub ghost struct Mat4V {
    pub r0: Vec4V,
    pub r1: Vec4V,
    pub r2: Vec4V,
    pub r3: Vec4V,
}

/// Model of the identity matrix.
pub open spec fn mat4_identity_v() -> Mat4V {
    Mat4V {
        r0: Vec4V { x: SCALE as int, y: 0, z: 0, w: 0 },
        r1: Vec4V { x: 0, y: SCALE as int, z: 0, w: 0 },
        r2: Vec4V { x: 0, y: 0, z: SCALE as int, w: 0 },
        r3: Vec4V { x: 0, y: 0, z: 0, w: SCALE as int },
    }
}

/// First column of a modelled matrix.
pub open spec fn mat4_colx(m: Mat4V) -> Vec4V {
    Vec4V { x: m.r0.x, y: m.r1.x, z: m.r2.x, w: m.r3.x }
}

/// Second column of a modelled matrix.
pub open spec fn mat4_coly(m: Mat4V) -> Vec4V {
    Vec4V { x: m.r0.y, y: m.r1.y, z: m.r2.y, w: m.r3.y }
}

/// Third column of a modelled matrix.
pub open spec fn mat4_colz(m: Mat4V) -> Vec4V {
    Vec4V { x: m.r0.z, y: m.r1.z, z: m.r2.z, w: m.r3.z }
}

/// Fourth column of a modelled matrix.
pub open spec fn mat4_colw(m: Mat4V) -> Vec4V {
    Vec4V { x: m.r0.w, y: m.r1.w, z: m.r2.w, w: m.r3.w }
}

/// Model of the transpose.
pub open spec fn mat4_transpose_v(m: Mat4V) -> Mat4V {
    Mat4V { r0: mat4_colx(m), r1: mat4_coly(m), r2: mat4_colz(m), r3: mat4_colw(m) }
}

/// A three-term cofactor combination `a*s0 - b*s1 + c*s2`.
pub open spec fn tri_v(a: int, s0: int, b: int, s1: int, c: int, s2: int) -> int {
    mul_v(a, s0) - mul_v(b, s1) + mul_v(c, s2)
}

/// All intermediates of `tri_v`, and its negation, are representable.
pub open spec fn tri_fits(a: int, s0: int, b: int, s1: int, c: int, s2: int) -> bool {
    fits(mul_v(a, s0)) && fits(mul_v(b, s1)) && fits(mul_v(c, s2)) && fits(
        mul_v(a, s0) - mul_v(b, s1),
    ) && fits(tri_v(a, s0, b, s1, c, s2)) && fits(-tri_v(a, s0, b, s1, c, s2))
}

/// Raw determinant along the first column, built from the six shared 2x2
/// subfactors of the last two columns, exactly as the code computes it.
pub open spec fn det4_v(m: Mat4V) -> int {
    let s0 = cof2_v(m.r2.z, m.r3.w, m.r2.w, m.r3.z);
    let s1 = cof2_v(m.r1.z, m.r3.w, m.r1.w, m.r3.z);
    let s2 = cof2_v(m.r1.z, m.r2.w, m.r1.w, m.r2.z);
    let s3 = cof2_v(m.r0.z, m.r3.w, m.r0.w, m.r3.z);
    let s4 = cof2_v(m.r0.z, m.r2.w, m.r0.w, m.r2.z);
    let s5 = cof2_v(m.r0.z, m.r1.w, m.r0.w, m.r1.z);
    let cx = tri_v(m.r1.y, s0, m.r2.y, s1, m.r3.y, s2);
    let cy = -tri_v(m.r0.y, s0, m.r2.y, s3, m.r3.y, s4);
    let cz = tri_v(m.r0.y, s1, m.r1.y, s3, m.r3.y, s5);
    let cw = -tri_v(m.r0.y, s2, m.r1.y, s4, m.r2.y, s5);
    mul_v(m.r0.x, cx) + mul_v(m.r1.x, cy) + mul_v(m.r2.x, cz) + mul_v(m.r3.x, cw)
}

/// All intermediates of `det4_v` are representable.
pub open spec fn det4_fits(m: Mat4V) -> bool {
    let s0 = cof2_v(m.r2.z, m.r3.w, m.r2.w, m.r3.z);
    let s1 = cof2_v(m.r1.z, m.r3.w, m.r1.w, m.r3.z);
    let s2 = cof2_v(m.r1.z, m.r2.w, m.r1.w, m.r2.z);
    let s3 = cof2_v(m.r0.z, m.r3.w, m.r0.w, m.r3.z);
    let s4 = cof2_v(m.r0.z, m.r2.w, m.r0.w, m.r2.z);
    let s5 = cof2_v(m.r0.z, m.r1.w, m.r0.w, m.r1.z);
    let cx = tri_v(m.r1.y, s0, m.r2.y, s1, m.r3.y, s2);
    let cy = -tri_v(m.r0.y, s0, m.r2.y, s3, m.r3.y, s4);
    let cz = tri_v(m.r0.y, s1, m.r1.y, s3, m.r3.y, s5);
    let cw = -tri_v(m.r0.y, s2, m.r1.y, s4, m.r2.y, s5);
    cof2_fits(m.r2.z, m.r3.w, m.r2.w, m.r3.z) && cof2_fits(m.r1.z, m.r3.w, m.r1.w, m.r3.z)
        && cof2_fits(m.r1.z, m.r2.w, m.r1.w, m.r2.z) && cof2_fits(m.r0.z, m.r3.w, m.r0.w, m.r3.z)
        && cof2_fits(m.r0.z, m.r2.w, m.r0.w, m.r2.z) && cof2_fits(m.r0.z, m.r1.w, m.r0.w, m.r1.z)
        && tri_fits(m.r1.y, s0, m.r2.y, s1, m.r3.y, s2) && tri_fits(
        m.r0.y,
        s0,
        m.r2.y,
        s3,
        m.r3.y,
        s4,
    ) && tri_fits(m.r0.y, s1, m.r1.y, s3, m.r3.y, s5) && tri_fits(
        m.r0.y,
        s2,
        m.r1.y,
        s4,
        m.r2.y,
        s5,
    ) && fits(mul_v(m.r0.x, cx)) && fits(mul_v(m.r1.x, cy)) && fits(mul_v(m.r2.x, cz)) && fits(
        mul_v(m.r3.x, cw),
    ) && fits(mul_v(m.r0.x, cx) + mul_v(m.r1.x, cy)) && fits(
        mul_v(m.r0.x, cx) + mul_v(m.r1.x, cy) + mul_v(m.r2.x, cz),
    ) && fits(det4_v(m))
}

/// Model of the adjugate, over the eighteen shared 2x2 subfactors.
pub open spec fn adj4_v(m: Mat4V) -> Mat4V {
    let s00 = cof2_v(m.r2.z, m.r3.w, m.r3.z, m.r2.w);
    let s01 = cof2_v(m.r2.y, m.r3.w, m.r3.y, m.r2.w);
    let s02 = cof2_v(m.r2.y, m.r3.z, m.r3.y, m.r2.z);
    let s03 = cof2_v(m.r2.x, m.r3.w, m.r3.x, m.r2.w);
    let s04 = cof2_v(m.r2.x, m.r3.z, m.r3.x, m.r2.z);
    let s05 = cof2_v(m.r2.x, m.r3.y, m.r3.x, m.r2.y);
    let s06 = cof2_v(m.r1.z, m.r3.w, m.r3.z, m.r1.w);
    let s07 = cof2_v(m.r1.y, m.r3.w, m.r3.y, m.r1.w);
    let s08 = cof2_v(m.r1.y, m.r3.z, m.r3.y, m.r1.z);
    let s09 = cof2_v(m.r1.x, m.r3.w, m.r3.x, m.r1.w);
    let s10 = cof2_v(m.r1.x, m.r3.z, m.r3.x, m.r1.z);
    let s11 = cof2_v(m.r1.x, m.r3.y, m.r3.x, m.r1.y);
    let s12 = cof2_v(m.r1.z, m.r2.w, m.r2.z, m.r1.w);
    let s13 = cof2_v(m.r1.y, m.r2.w, m.r2.y, m.r1.w);
    let s14 = cof2_v(m.r1.y, m.r2.z, m.r2.y, m.r1.z);
    let s15 = cof2_v(m.r1.x, m.r2.w, m.r2.x, m.r1.w);
    let s16 = cof2_v(m.r1.x, m.r2.z, m.r2.x, m.r1.z);
    let s17 = cof2_v(m.r1.x, m.r2.y, m.r2.x, m.r1.y);
    Mat4V {
        r0: Vec4V {
            x: tri_v(m.r1.y, s00, m.r1.z, s01, m.r1.w, s02),
            y: -tri_v(m.r0.y, s00, m.r0.z, s01, m.r0.w, s02),
            z: tri_v(m.r0.y, s06, m.r0.z, s07, m.r0.w, s08),
            w: -tri_v(m.r0.y, s12, m.r0.z, s13, m.r0.w, s14),
        },
        r1: Vec4V {
            x: -tri_v(m.r1.x, s00, m.r1.z, s03, m.r1.w, s04),
            y: tri_v(m.r0.x, s00, m.r0.z, s03, m.r0.w, s04),
            z: -tri_v(m.r0.x, s06, m.r0.z, s09, m.r0.w, s10),
            w: tri_v(m.r0.x, s12, m.r0.z, s15, m.r0.w, s16),
        },
        r2: Vec4V {
            x: tri_v(m.r1.x, s01, m.r1.y, s03, m.r1.w, s05),
            y: -tri_v(m.r0.x, s01, m.r0.y, s03, m.r0.w, s05),
            z: tri_v(m.r0.x, s07, m.r0.y, s09, m.r0.w, s11),
            w: -tri_v(m.r0.x, s13, m.r0.y, s15, m.r0.w, s17),
        },
        r3: Vec4V {
            x: -tri_v(m.r1.x, s02, m.r1.y, s04, m.r1.z, s05),
            y: tri_v(m.r0.x, s02, m.r0.y, s04, m.r0.z, s05),
            z: -tri_v(m.r0.x, s08, m.r0.y, s10, m.r0.z, s11),
            w: tri_v(m.r0.x, s14, m.r0.y, s16, m.r0.z, s17),
        },
    }
}

/// All intermediates of `adj4_v` are representable.
pub open spec fn adj4_fits(m: Mat4V) -> bool {
    let s00 = cof2_v(m.r2.z, m.r3.w, m.r3.z, m.r2.w);
    let s01 = cof2_v(m.r2.y, m.r3.w, m.r3.y, m.r2.w);
    let s02 = cof2_v(m.r2.y, m.r3.z, m.r3.y, m.r2.z);
    let s03 = cof2_v(m.r2.x, m.r3.w, m.r3.x, m.r2.w);
    let s04 = cof2_v(m.r2.x, m.r3.z, m.r3.x, m.r2.z);
    let s05 = cof2_v(m.r2.x, m.r3.y, m.r3.x, m.r2.y);
    let s06 = cof2_v(m.r1.z, m.r3.w, m.r3.z, m.r1.w);
    let s07 = cof2_v(m.r1.y, m.r3.w, m.r3.y, m.r1.w);
    let s08 = cof2_v(m.r1.y, m.r3.z, m.r3.y, m.r1.z);
    let s09 = cof2_v(m.r1.x, m.r3.w, m.r3.x, m.r1.w);
    let s10 = cof2_v(m.r1.x, m.r3.z, m.r3.x, m.r1.z);
    let s11 = cof2_v(m.r1.x, m.r3.y, m.r3.x, m.r1.y);
    let s12 = cof2_v(m.r1.z, m.r2.w, m.r2.z, m.r1.w);
    let s13 = cof2_v(m.r1.y, m.r2.w, m.r2.y, m.r1.w);
    let s14 = cof2_v(m.r1.y, m.r2.z, m.r2.y, m.r1.z);
    let s15 = cof2_v(m.r1.x, m.r2.w, m.r2.x, m.r1.w);
    let s16 = cof2_v(m.r1.x, m.r2.z, m.r2.x, m.r1.z);
    let s17 = cof2_v(m.r1.x, m.r2.y, m.r2.x, m.r1.y);
    cof2_fits(m.r2.z, m.r3.w, m.r3.z, m.r2.w) && cof2_fits(m.r2.y, m.r3.w, m.r3.y, m.r2.w)
        && cof2_fits(m.r2.y, m.r3.z, m.r3.y, m.r2.z) && cof2_fits(m.r2.x, m.r3.w, m.r3.x, m.r2.w)
        && cof2_fits(m.r2.x, m.r3.z, m.r3.x, m.r2.z) && cof2_fits(m.r2.x, m.r3.y, m.r3.x, m.r2.y)
        && cof2_fits(m.r1.z, m.r3.w, m.r3.z, m.r1.w) && cof2_fits(m.r1.y, m.r3.w, m.r3.y, m.r1.w)
        && cof2_fits(m.r1.y, m.r3.z, m.r3.y, m.r1.z) && cof2_fits(m.r1.x, m.r3.w, m.r3.x, m.r1.w)
        && cof2_fits(m.r1.x, m.r3.z, m.r3.x, m.r1.z) && cof2_fits(m.r1.x, m.r3.y, m.r3.x, m.r1.y)
        && cof2_fits(m.r1.z, m.r2.w, m.r2.z, m.r1.w) && cof2_fits(m.r1.y, m.r2.w, m.r2.y, m.r1.w)
        && cof2_fits(m.r1.y, m.r2.z, m.r2.y, m.r1.z) && cof2_fits(m.r1.x, m.r2.w, m.r2.x, m.r1.w)
        && cof2_fits(m.r1.x, m.r2.z, m.r2.x, m.r1.z) && cof2_fits(m.r1.x, m.r2.y, m.r2.x, m.r1.y)
        && tri_fits(m.r1.y, s00, m.r1.z, s01, m.r1.w, s02) && tri_fits(
        m.r0.y,
        s00,
        m.r0.z,
        s01,
        m.r0.w,
        s02,
    ) && tri_fits(m.r0.y, s06, m.r0.z, s07, m.r0.w, s08) && tri_fits(
        m.r0.y,
        s12,
        m.r0.z,
        s13,
        m.r0.w,
        s14,
    ) && tri_fits(m.r1.x, s00, m.r1.z, s03, m.r1.w, s04) && tri_fits(
        m.r0.x,
        s00,
        m.r0.z,
        s03,
        m.r0.w,
        s04,
    ) && tri_fits(m.r0.x, s06, m.r0.z, s09, m.r0.w, s10) && tri_fits(
        m.r0.x,
        s12,
        m.r0.z,
        s15,
        m.r0.w,
        s16,
    ) && tri_fits(m.r1.x, s01, m.r1.y, s03, m.r1.w, s05) && tri_fits(
        m.r0.x,
        s01,
        m.r0.y,
        s03,
        m.r0.w,
        s05,
    ) && tri_fits(m.r0.x, s07, m.r0.y, s09, m.r0.w, s11) && tri_fits(
        m.r0.x,
        s13,
        m.r0.y,
        s15,
        m.r0.w,
        s17,
    ) && tri_fits(m.r1.x, s02, m.r1.y, s04, m.r1.z, s05) && tri_fits(
        m.r0.x,
        s02,
        m.r0.y,
        s04,
        m.r0.z,
        s05,
    ) && tri_fits(m.r0.x, s08, m.r0.y, s10, m.r0.z, s11) && tri_fits(
        m.r0.x,
        s14,
        m.r0.y,
        s16,
        m.r0.z,
        s17,
    )
}

/// Determinant recomputed from the adjugate's first row, as the inverse
/// does before dividing.
pub open spec fn det4_from_adj_v(m: Mat4V) -> int {
    let a = adj4_v(m);
    mul_v(m.r0.x, a.r0.x) + mul_v(m.r1.x, a.r0.y) + mul_v(m.r2.x, a.r0.z) + mul_v(m.r3.x, a.r0.w)
}

/// All intermediates of `det4_from_adj_v` are representable.
pub open spec fn det4_from_adj_fits(m: Mat4V) -> bool {
    let a = adj4_v(m);
    fits(mul_v(m.r0.x, a.r0.x)) && fits(mul_v(m.r1.x, a.r0.y)) && fits(mul_v(m.r2.x, a.r0.z))
        && fits(mul_v(m.r3.x, a.r0.w)) && fits(mul_v(m.r0.x, a.r0.x) + mul_v(m.r1.x, a.r0.y))
        && fits(mul_v(m.r0.x, a.r0.x) + mul_v(m.r1.x, a.r0.y) + mul_v(m.r2.x, a.r0.z)) && fits(
        det4_from_adj_v(m),
    )
}

/// Whether the modelled matrix counts as singular for the inverse: the
/// determinant the inverse computes lies within the default tolerance of
/// zero.
pub open spec fn mat4_singular_v(m: Mat4V) -> bool {
    iabs(det4_from_adj_v(m)) < DEF_EPSILON_RAW
}

/// Model of the inverse: the adjugate divided entrywise by the determinant
/// recomputed from it.
pub open spec fn mat4_inverse_v(m: Mat4V) -> Mat4V {
    let d = det4_from_adj_v(m);
    let a = adj4_v(m);
    Mat4V {
        r0: Vec4V {
            x: div_v(a.r0.x, d),
            y: div_v(a.r0.y, d),
            z: div_v(a.r0.z, d),
            w: div_v(a.r0.w, d),
        },
        r1: Vec4V {
            x: div_v(a.r1.x, d),
            y: div_v(a.r1.y, d),
            z: div_v(a.r1.z, d),
            w: div_v(a.r1.w, d),
        },
        r2: Vec4V {
            x: div_v(a.r2.x, d),
            y: div_v(a.r2.y, d),
            z: div_v(a.r2.z, d),
            w: div_v(a.r2.w, d),
        },
        r3: Vec4V {
            x: div_v(a.r3.x, d),
            y: div_v(a.r3.y, d),
            z: div_v(a.r3.z, d),
            w: div_v(a.r3.w, d),
        },
    }
}

/// All intermediates of the inverse are representable.
pub open spec fn mat4_inverse_fits(m: Mat4V) -> bool {
    let d = det4_from_adj_v(m);
    let a = adj4_v(m);
    adj4_fits(m) && det4_from_adj_fits(m) && (d != 0 ==> fits(div_v(a.r0.x, d)) && fits(
        div_v(a.r0.y, d),
    ) && fits(div_v(a.r0.z, d)) && fits(div_v(a.r0.w, d)) && fits(div_v(a.r1.x, d)) && fits(
        div_v(a.r1.y, d),
    ) && fits(div_v(a.r1.z, d)) && fits(div_v(a.r1.w, d)) && fits(div_v(a.r2.x, d)) && fits(
        div_v(a.r2.y, d),
    ) && fits(div_v(a.r2.z, d)) && fits(div_v(a.r2.w, d)) && fits(div_v(a.r3.x, d)) && fits(
        div_v(a.r3.y, d),
    ) && fits(div_v(a.r3.z, d)) && fits(div_v(a.r3.w, d)))
}

/// Model of the matrix product: row-by-column dot products.
pub open spec fn mat4_mul_v(a: Mat4V, b: Mat4V) -> Mat4V {
    Mat4V {
        r0: Vec4V {
            x: dot4_v(a.r0, mat4_colx(b)),
            y: dot4_v(a.r0, mat4_coly(b)),
            z: dot4_v(a.r0, mat4_colz(b)),
            w: dot4_v(a.r0, mat4_colw(b)),
        },
        r1: Vec4V {
            x: dot4_v(a.r1, mat4_colx(b)),
            y: dot4_v(a.r1, mat4_coly(b)),
            z: dot4_v(a.r1, mat4_colz(b)),
            w: dot4_v(a.r1, mat4_colw(b)),
        },
        r2: Vec4V {
            x: dot4_v(a.r2, mat4_colx(b)),
            y: dot4_v(a.r2, mat4_coly(b)),
            z: dot4_v(a.r2, mat4_colz(b)),
            w: dot4_v(a.r2, mat4_colw(b)),
        },
        r3: Vec4V {
            x: dot4_v(a.r3, mat4_colx(b)),
            y: dot4_v(a.r3, mat4_coly(b)),
            z: dot4_v(a.r3, mat4_colz(b)),
            w: dot4_v(a.r3, mat4_colw(b)),
        },
    }
}

/// All intermediates of `mat4_mul_v` are representable.
pub open spec fn mat4_mul_fits(a: Mat4V, b: Mat4V) -> bool {
    dot4_fits(a.r0, mat4_colx(b)) && dot4_fits(a.r0, mat4_coly(b)) && dot4_fits(
        a.r0,
        mat4_colz(b),
    ) && dot4_fits(a.r0, mat4_colw(b)) && dot4_fits(a.r1, mat4_colx(b)) && dot4_fits(
        a.r1,
        mat4_coly(b),
    ) && dot4_fits(a.r1, mat4_colz(b)) && dot4_fits(a.r1, mat4_colw(b)) && dot4_fits(
        a.r2,
        mat4_colx(b),
    ) && dot4_fits(a.r2, mat4_coly(b)) && dot4_fits(a.r2, mat4_colz(b)) && dot4_fits(
        a.r2,
        mat4_colw(b),
    ) && dot4_fits(a.r3, mat4_colx(b)) && dot4_fits(a.r3, mat4_coly(b)) && dot4_fits(
        a.r3,
        mat4_colz(b),
    ) && dot4_fits(a.r3, mat4_colw(b))
}

/// Whether every entry of the modelled matrix is representable.
pub open spec fn mat4_fits(m: Mat4V) -> bool {
    fits(m.r0.x) && fits(m.r0.y) && fits(m.r0.z) && fits(m.r0.w) && fits(m.r1.x) && fits(m.r1.y)
        && fits(m.r1.z) && fits(m.r1.w) && fits(m.r2.x) && fits(m.r2.y) && fits(m.r2.z) && fits(
        m.r2.w,
    ) && fits(m.r3.x) && fits(m.r3.y) && fits(m.r3.z) && fits(m.r3.w)
}

/// Embedding of a 3x3 matrix into the upper-left block of a 4x4 matrix.
pub open spec fn mat4_embed_v(m: Mat3V) -> Mat4V {
    Mat4V {
        r0: Vec4V { x: m.r0.x, y: m.r0.y, z: m.r0.z, w: 0 },
        r1: Vec4V { x: m.r1.x, y: m.r1.y, z: m.r1.z, w: 0 },
        r2: Vec4V { x: m.r2.x, y: m.r2.y, z: m.r2.z, w: 0 },
        r3: Vec4V { x: 0, y: 0, z: 0, w: SCALE as int },
    }
}

/// Model of the translation matrix: the identity with the offset in the
/// last column.
pub open spec fn mat4_translation_v(p: Vec3V) -> Mat4V {
    Mat4V {
        r0: Vec4V { x: SCALE as int, y: 0, z: 0, w: p.x },
        r1: Vec4V { x: 0, y: SCALE as int, z: 0, w: p.y },
        r2: Vec4V { x: 0, y: 0, z: SCALE as int, w: p.z },
        r3: Vec4V { x: 0, y: 0, z: 0, w: SCALE as int },
    }
}

/// Multiplying by the identity, on either side, is exact for every
/// representable matrix, and never overflows.
pub proof fn lemma_mat4_mul_identity(m: Mat4V)
    requires
        mat4_fits(m),
    ensures
        mat4_mul_v(m, mat4_identity_v()) == m,
        mat4_mul_v(mat4_identity_v(), m) == m,
        mat4_mul_fits(m, mat4_identity_v()),
        mat4_mul_fits(mat4_identity_v(), m),
{
    lemma_mul_v_one(m.r0.x);
    lemma_mul_v_one(m.r0.y);
    lemma_mul_v_one(m.r0.z);
    lemma_mul_v_one(m.r0.w);
    lemma_mul_v_one(m.r1.x);
    lemma_mul_v_one(m.r1.y);
    lemma_mul_v_one(m.r1.z);
    lemma_mul_v_one(m.r1.w);
    lemma_mul_v_one(m.r2.x);
    lemma_mul_v_one(m.r2.y);
    lemma_mul_v_one(m.r2.z);
    lemma_mul_v_one(m.r2.w);
    lemma_mul_v_one(m.r3.x);
    lemma_mul_v_one(m.r3.y);
    lemma_mul_v_one(m.r3.z);
    lemma_mul_v_one(m.r3.w);
    lemma_mul_v_zero(m.r0.x);
    lemma_mul_v_zero(m.r0.y);
    lemma_mul_v_zero(m.r0.z);
    lemma_mul_v_zero(m.r0.w);
    lemma_mul_v_zero(m.r1.x);
    lemma_mul_v_zero(m.r1.y);
    lemma_mul_v_zero(m.r1.z);
    lemma_mul_v_zero(m.r1.w);
    lemma_mul_v_zero(m.r2.x);
    lemma_mul_v_zero(m.r2.y);
    lemma_mul_v_zero(m.r2.z);
    lemma_mul_v_zero(m.r2.w);
    lemma_mul_v_zero(m.r3.x);
    lemma_mul_v_zero(m.r3.y);
    lemma_mul_v_zero(m.r3.z);
    lemma_mul_v_zero(m.r3.w);
}

/// A 2x2 subfactor of two rows across two columns.
fn sf(a: Scalar, b: Scalar, c: Scalar, d: Scalar) -> (r: Scalar)
    requires
        cof2_fits(a@, b@, c@, d@),
    ensures
        r@ == cof2_v(a@, b@, c@, d@),
{
    a.mul(b).sub(c.mul(d))
}

/// A three-term cofactor combination.
fn tri(a: Scalar, s0: Scalar, b: Scalar, s1: Scalar, c: Scalar, s2: Scalar) -> (r: Scalar)
    requires
        tri_fits(a@, s0@, b@, s1@, c@, s2@),
    ensures
        r@ == tri_v(a@, s0@, b@, s1@, c@, s2@),
{
    a.mul(s0).sub(b.mul(s1)).add(c.mul(s2))
}

/// A 4x4 matrix stored as four rows.
#[derive(Clone, Copy, Debug, PartialEq, Eq, Structural)]
pub struct Mat4 {
    pub r0: Vec4,
    pub r1: Vec4,
    pub r2: Vec4,
    pub r3: Vec4,
}

impl View for Mat4 {
    type V = Mat4V;

    open spec fn view(&self) -> Mat4V {
        Mat4V { r0: self.r0@, r1: self.r1@, r2: self.r2@, r3: self.r3@ }
    }
}

impl Mat4 {
    pub fn identity() -> (r: Mat4)
        ensures
            r@ == mat4_identity_v(),
    {
        Mat4 {
            r0: Vec4 { x: Scalar::one(), y: Scalar::zero(), z: Scalar::zero(), w: Scalar::zero() },
            r1: Vec4 { x: Scalar::zero(), y: Scalar::one(), z: Scalar::zero(), w: Scalar::zero() },
            r2: Vec4 { x: Scalar::zero(), y: Scalar::zero(), z: Scalar::one(), w: Scalar::zero() },
            r3: Vec4 { x: Scalar::zero(), y: Scalar::zero(), z: Scalar::zero(), w: Scalar::one() },
        }
    }

    /// The all-zero matrix.
    pub fn empty() -> (r: Mat4)
        ensures
            r@ == (Mat4V {
                r0: Vec4V { x: 0, y: 0, z: 0, w: 0 },
                r1: Vec4V { x: 0, y: 0, z: 0, w: 0 },
                r2: Vec4V { x: 0, y: 0, z: 0, w: 0 },
                r3: Vec4V { x: 0, y: 0, z: 0, w: 0 },
            }),
    {
        Mat4 { r0: Vec4::zero(), r1: Vec4::zero(), r2: Vec4::zero(), r3: Vec4::zero() }
    }

    /// Builds the matrix from its sixteen entries in row-major order.
    pub fn new(
        r0c0: Scalar,
        r0c1: Scalar,
        r0c2: Scalar,
        r0c3: Scalar,
        r1c0: Scalar,
        r1c1: Scalar,
        r1c2: Scalar,
        r1c3: Scalar,
        r2c0: Scalar,
        r2c1: Scalar,
        r2c2: Scalar,
        r2c3: Scalar,
        r3c0: Scalar,
        r3c1: Scalar,
        r3c2: Scalar,
        r3c3: Scalar,
    ) -> (r: Mat4)
        ensures
            r@ == (Mat4V {
                r0: Vec4V { x: r0c0@, y: r0c1@, z: r0c2@, w: r0c3@ },
                r1: Vec4V { x: r1c0@, y: r1c1@, z: r1c2@, w: r1c3@ },
                r2: Vec4V { x: r2c0@, y: r2c1@, z: r2c2@, w: r2c3@ },
                r3: Vec4V { x: r3c0@, y: r3c1@, z: r3c2@, w: r3c3@ },
            }),
    {
        Mat4 {
            r0: Vec4 { x: r0c0, y: r0c1, z: r0c2, w: r0c3 },
            r1: Vec4 { x: r1c0, y: r1c1, z: r1c2, w: r1c3 },
            r2: Vec4 { x: r2c0, y: r2c1, z: r2c2, w: r2c3 },
            r3: Vec4 { x: r3c0, y: r3c1, z: r3c2, w: r3c3 },
        }
    }

    pub fn new_from_vec4s(r0: Vec4, r1: Vec4, r2: Vec4, r3: Vec4) -> (r: Mat4)
        ensures
            r@ == (Mat4V { r0: r0@, r1: r1@, r2: r2@, r3: r3@ }),
    {
        Mat4 { r0, r1, r2, r3 }
    }

    pub fn new_from_arrs(r0: [Scalar; 4], r1: [Scalar; 4], r2: [Scalar; 4], r3: [Scalar; 4]) -> (r:
        Mat4)
        ensures
            r@ == (Mat4V {
                r0: Vec4V { x: r0[0]@, y: r0[1]@, z: r0[2]@, w: r0[3]@ },
                r1: Vec4V { x: r1[0]@, y: r1[1]@, z: r1[2]@, w: r1[3]@ },
                r2: Vec4V { x: r2[0]@, y: r2[1]@, z: r2[2]@, w: r2[3]@ },
                r3: Vec4V { x: r3[0]@, y: r3[1]@, z: r3[2]@, w: r3[3]@ },
            }),
    {
        Mat4 {
            r0: Vec4 { x: r0[0], y: r0[1], z: r0[2], w: r0[3] },
            r1: Vec4 { x: r1[0], y: r1[1], z: r1[2], w: r1[3] },
            r2: Vec4 { x: r2[0], y: r2[1], z: r2[2], w: r2[3] },
            r3: Vec4 { x: r3[0], y: r3[1], z: r3[2], w: r3[3] },
        }
    }

    /// The determinant, from the six shared 2x2 subfactors.
    pub fn determinant(&self) -> (r: Scalar)
        requires
            det4_fits(self@),
        ensures
            r@ == det4_v(self@),
    {
        let s0 = sf(self.r2.z, self.r3.w, self.r2.w, self.r3.z);
        let s1 = sf(self.r1.z, self.r3.w, self.r1.w, self.r3.z);
        let s2 = sf(self.r1.z, self.r2.w, self.r1.w, self.r2.z);
        let s3 = sf(self.r0.z, self.r3.w, self.r0.w, self.r3.z);
        let s4 = sf(self.r0.z, self.r2.w, self.r0.w, self.r2.z);
        let s5 = sf(self.r0.z, self.r1.w, self.r0.w, self.r1.z);
        let cx = tri(self.r1.y, s0, self.r2.y, s1, self.r3.y, s2);
        let cy = tri(self.r0.y, s0, self.r2.y, s3, self.r3.y, s4).neg();
        let cz = tri(self.r0.y, s1, self.r1.y, s3, self.r3.y, s5);
        let cw = tri(self.r0.y, s2, self.r1.y, s4, self.r2.y, s5).neg();
        self.r0.x.mul(cx).add(self.r1.x.mul(cy)).add(self.r2.x.mul(cz)).add(self.r3.x.mul(cw))
    }

    /// The adjugate, from the eighteen shared 2x2 subfactors.
    pub fn adjoint(&self) -> (r: Mat4)
        requires
            adj4_fits(self@),
        ensures
            r@ == adj4_v(self@),
    {
        let s00 = sf(self.r2.z, self.r3.w, self.r3.z, self.r2.w);
        let s01 = sf(self.r2.y, self.r3.w, self.r3.y, self.r2.w);
        let s02 = sf(self.r2.y, self.r3.z, self.r3.y, self.r2.z);
        let s03 = sf(self.r2.x, self.r3.w, self.r3.x, self.r2.w);
        let s04 = sf(self.r2.x, self.r3.z, self.r3.x, self.r2.z);
        let s05 = sf(self.r2.x, self.r3.y, self.r3.x, self.r2.y);
        let s06 = sf(self.r1.z, self.r3.w, self.r3.z, self.r1.w);
        let s07 = sf(self.r1.y, self.r3.w, self.r3.y, self.r1.w);
        let s08 = sf(self.r1.y, self.r3.z, self.r3.y, self.r1.z);
        let s09 = sf(self.r1.x, self.r3.w, self.r3.x, self.r1.w);
        let s10 = sf(self.r1.x, self.r3.z, self.r3.x, self.r1.z);
        let s11 = sf(self.r1.x, self.r3.y, self.r3.x, self.r1.y);
        let s12 = sf(self.r1.z, self.r2.w, self.r2.z, self.r1.w);
        let s13 = sf(self.r1.y, self.r2.w, self.r2.y, self.r1.w);
        let s14 = sf(self.r1.y, self.r2.z, self.r2.y, self.r1.z);
        let s15 = sf(self.r1.x, self.r2.w, self.r2.x, self.r1.w);
        let s16 = sf(self.r1.x, self.r2.z, self.r2.x, self.r1.z);
        let s17 = sf(self.r1.x, self.r2.y, self.r2.x, self.r1.y);
        Mat4 {
            r0: Vec4 {
                x: tri(self.r1.y, s00, self.r1.z, s01, self.r1.w, s02),
                y: tri(self.r0.y, s00, self.r0.z, s01, self.r0.w, s02).neg(),
                z: tri(self.r0.y, s06, self.r0.z, s07, self.r0.w, s08),
                w: tri(self.r0.y, s12, self.r0.z, s13, self.r0.w, s14).neg(),
            },
            r1: Vec4 {
                x: tri(self.r1.x, s00, self.r1.z, s03, self.r1.w, s04).neg(),
                y: tri(self.r0.x, s00, self.r0.z, s03, self.r0.w, s04),
                z: tri(self.r0.x, s06, self.r0.z, s09, self.r0.w, s10).neg(),
                w: tri(self.r0.x, s12, self.r0.z, s15, self.r0.w, s16),
            },
            r2: Vec4 {
                x: tri(self.r1.x, s01, self.r1.y, s03, self.r1.w, s05),
                y: tri(self.r0.x, s01, self.r0.y, s03, self.r0.w, s05).neg(),
                z: tri(self.r0.x, s07, self.r0.y, s09, self.r0.w, s11),
                w: tri(self.r0.x, s13, self.r0.y, s15, self.r0.w, s17).neg(),
            },
            r3: Vec4 {
                x: tri(self.r1.x, s02, self.r1.y, s04, self.r1.z, s05).neg(),
                y: tri(self.r0.x, s02, self.r0.y, s04, self.r0.z, s05),
                z: tri(self.r0.x, s08, self.r0.y, s10, self.r0.z, s11).neg(),
                w: tri(self.r0.x, s14, self.r0.y, s16, self.r0.z, s17),
            },
        }
    }

    /// The inverse: the adjugate divided by the determinant recomputed from
    /// its first row; a determinant within the default tolerance of zero is
    /// refused as singular.
    pub fn inverse(&self) -> (r: Result<Mat4, SingularMatrix>)
        requires
            mat4_inverse_fits(self@),
        ensures
            r is Err <==> mat4_singular_v(self@),
            r is Ok ==> r->Ok_0@ == mat4_inverse_v(self@),
    {
        let adj = self.adjoint();
        let det = self.r0.x.mul(adj.r0.x).add(self.r1.x.mul(adj.r0.y)).add(
            self.r2.x.mul(adj.r0.z),
        ).add(self.r3.x.mul(adj.r0.w));
        if -DEF_EPSILON_RAW < det.raw() && det.raw() < DEF_EPSILON_RAW {
            Err(SingularMatrix)
        } else {
            Ok(
                Mat4 {
                    r0: adj.r0.div_scalar(det),
                    r1: adj.r1.div_scalar(det),
                    r2: adj.r2.div_scalar(det),
                    r3: adj.r3.div_scalar(det),
                },
            )
        }
    }

    pub fn transpose(&self) -> (r: Mat4)
        ensures
            r@ == mat4_transpose_v(self@),
    {
        Mat4 {
            r0: Vec4 { x: self.r0.x, y: self.r1.x, z: self.r2.x, w: self.r3.x },
            r1: Vec4 { x: self.r0.y, y: self.r1.y, z: self.r2.y, w: self.r3.y },
            r2: Vec4 { x: self.r0.z, y: self.r1.z, z: self.r2.z, w: self.r3.z },
            r3: Vec4 { x: self.r0.w, y: self.r1.w, z: self.r2.w, w: self.r3.w },
        }
    }

    /// Row-by-column matrix product.
    pub fn mul_mat(self, rhs: Mat4) -> (r: Mat4)
        requires
            mat4_mul_fits(self@, rhs@),
        ensures
            r@ == mat4_mul_v(self@, rhs@),
    {
        let t = rhs.transpose();
        Mat4 {
            r0: Vec4 {
                x: self.r0.dot(t.r0),
                y: self.r0.dot(t.r1),
                z: self.r0.dot(t.r2),
                w: self.r0.dot(t.r3),
            },
            r1: Vec4 {
                x: self.r1.dot(t.r0),
                y: self.r1.dot(t.r1),
                z: self.r1.dot(t.r2),
                w: self.r1.dot(t.r3),
            },
            r2: Vec4 {
                x: self.r2.dot(t.r0),
                y: self.r2.dot(t.r1),
                z: self.r2.dot(t.r2),
                w: self.r2.dot(t.r3),
            },
            r3: Vec4 {
                x: self.r3.dot(t.r0),
                y: self.r3.dot(t.r1),
                z: self.r3.dot(t.r2),
                w: self.r3.dot(t.r3),
            },
        }
    }

    /// Product with a column vector on the right.
    pub fn mul_vec(self, rhs: Vec4) -> (r: Vec4)
        requires
            dot4_fits(self@.r0, rhs@),
            dot4_fits(self@.r1, rhs@),
            dot4_fits(self@.r2, rhs@),
            dot4_fits(self@.r3, rhs@),
        ensures
            r@ == (Vec4V {
                x: dot4_v(self@.r0, rhs@),
                y: dot4_v(self@.r1, rhs@),
                z: dot4_v(self@.r2, rhs@),
                w: dot4_v(self@.r3, rhs@),
            }),
    {
        Vec4 {
            x: self.r0.dot(rhs),
            y: self.r1.dot(rhs),
            z: self.r2.dot(rhs),
            w: self.r3.dot(rhs),
        }
    }

    /// The 3x3 matrix embedded in the upper-left block, with an identity
    /// last row and column.
    pub fn from_mat3(m: Mat3) -> (r: Mat4)
        ensures
            r@ == mat4_embed_v(m@),
    {
        Mat4 {
            r0: Vec4 { x: m.r0.x, y: m.r0.y, z: m.r0.z, w: Scalar::zero() },
            r1: Vec4 { x: m.r1.x, y: m.r1.y, z: m.r1.z, w: Scalar::zero() },
            r2: Vec4 { x: m.r2.x, y: m.r2.y, z: m.r2.z, w: Scalar::zero() },
            r3: Vec4 { x: Scalar::zero(), y: Scalar::zero(), z: Scalar::zero(), w: Scalar::one() },
        }
    }

    /// Rotation matrix from Euler angles in degrees, composed in the
    /// requested order.
    pub fn get_rotation_mat_flex_euler_deg(angles: Vec3, order: RotationOrder) -> (r: Mat4)
        ensures
            r@ == mat4_embed_v(
                rot3_flex_v(
                    Vec3V {
                        x: mul_v(angles@.x, DEG_TO_RAD_RAW as int),
                        y: mul_v(angles@.y, DEG_TO_RAD_RAW as int),
                        z: mul_v(angles@.z, DEG_TO_RAD_RAW as int),
                    },
                    order,
                ),
            ),
    {
        Mat4::from_mat3(Mat3::get_rotation_mat_flex_euler_deg(angles, order))
    }

    /// Rotation matrix from Euler angles in radians, composed in the
    /// requested order.
    pub fn get_rotation_mat_flex_euler_rad(angles: Vec3, order: RotationOrder) -> (r: Mat4)
        ensures
            r@ == mat4_embed_v(rot3_flex_v(angles@, order)),
    {
        Mat4::from_mat3(Mat3::get_rotation_mat_flex_euler_rad(angles, order))
    }

    /// Rotation matrix from Euler angles in degrees, in the order bank,
    /// pitch, heading.
    pub fn get_rotation_mat_euler_upr_obj_deg(pitch: Scalar, heading: Scalar, bank: Scalar) -> (r:
        Mat4)
        ensures
            r@ == mat4_embed_v(
                rot3_upr_obj_v(
                    mul_v(pitch@, DEG_TO_RAD_RAW as int),
                    mul_v(heading@, DEG_TO_RAD_RAW as int),
                    mul_v(bank@, DEG_TO_RAD_RAW as int),
                ),
            ),
    {
        Mat4::from_mat3(Mat3::get_rotation_mat_euler_upr_obj_deg(pitch, heading, bank))
    }

    /// Rotation matrix from Euler angles in radians, in the order bank,
    /// pitch, heading.
    pub fn get_rotation_mat_euler_upr_obj_rad(pitch: Scalar, heading: Scalar, bank: Scalar) -> (r:
        Mat4)
        ensures
            r@ == mat4_embed_v(rot3_upr_obj_v(pitch@, heading@, bank@)),
    {
        Mat4::from_mat3(Mat3::get_rotation_mat_euler_upr_obj_rad(pitch, heading, bank))
    }

    /// Rotation matrix from Euler angles in degrees, in the order heading,
    /// pitch, bank.
    pub fn get_rotation_mat_euler_obj_upr_deg(pitch: Scalar, heading: Scalar, bank: Scalar) -> (r:
        Mat4)
        ensures
            r@ == mat4_embed_v(
                rot3_obj_upr_v(
                    mul_v(pitch@, DEG_TO_RAD_RAW as int),
                    mul_v(heading@, DEG_TO_RAD_RAW as int),
                    mul_v(bank@, DEG_TO_RAD_RAW as int),
                ),
            ),
    {
        Mat4::from_mat3(Mat3::get_rotation_mat_euler_obj_upr_deg(pitch, heading, bank))
    }

    /// Rotation matrix from Euler angles in radians, in the order heading,
    /// pitch, bank.
    pub fn get_rotation_mat_euler_obj_upr_rad(pitch: Scalar, heading: Scalar, bank: Scalar) -> (r:
        Mat4)
        ensures
            r@ == mat4_embed_v(rot3_obj_upr_v(pitch@, heading@, bank@)),
    {
        Mat4::from_mat3(Mat3::get_rotation_mat_euler_obj_upr_rad(pitch, heading, bank))
    }

    /// Rotation matrix about a unit axis, angle in degrees.
    pub fn get_angle_axis_mat_deg(n: Vec3, theta: Scalar) -> (r: Mat4)
        requires
            is_unit3_v(n@),
            iabs(n@.x) <= 2 * SCALE,
            iabs(n@.y) <= 2 * SCALE,
            iabs(n@.z) <= 2 * SCALE,
        ensures
            r@ == mat4_embed_v(rot3_angle_axis_v(n@, mul_v(theta@, DEG_TO_RAD_RAW as int))),
    {
        Mat4::from_mat3(Mat3::get_angle_axis_mat_deg(n, theta))
    }

    /// Rotation matrix about a unit axis, angle in radians.
    pub fn get_angle_axis_mat_rad(n: Vec3, theta: Scalar) -> (r: Mat4)
        requires
            is_unit3_v(n@),
            iabs(n@.x) <= 2 * SCALE,
            iabs(n@.y) <= 2 * SCALE,
            iabs(n@.z) <= 2 * SCALE,
        ensures
            r@ == mat4_embed_v(rot3_angle_axis_v(n@, theta@)),
    {
        Mat4::from_mat3(Mat3::get_angle_axis_mat_rad(n, theta))
    }

    /// Diagonal scale matrix with one factor per axis.
    pub fn get_uniform_scale_mat(factors: Vec3) -> (r: Mat4)
        ensures
            r@ == mat4_embed_v(scale3_uniform_v(factors@)),
    {
        Mat4::from_mat3(Mat3::get_uniform_scale_mat(factors))
    }

    /// Matrix that scales by `s` along the unit axis `n`.
    pub fn get_scale_along_axis_mat(n: Vec3, s: Scalar) -> (r: Mat4)
        requires
            is_unit3_v(n@),
            scale3_axis_fits(n@, s@),
        ensures
            r@ == mat4_embed_v(scale3_axis_v(n@, s@)),
    {
        Mat4::from_mat3(Mat3::get_scale_along_axis_mat(n, s))
    }

    /// Translation matrix that moves by `pos`.
    pub fn get_translation_mat(pos: Vec3) -> (r: Mat4)
        ensures
            r@ == mat4_translation_v(pos@),
    {
        Mat4 {
            r0: Vec4 { x: Scalar::one(), y: Scalar::zero(), z: Scalar::zero(), w: pos.x },
            r1: Vec4 { x: Scalar::zero(), y: Scalar::one(), z: Scalar::zero(), w: pos.y },
            r2: Vec4 { x: Scalar::zero(), y: Scalar::zero(), z: Scalar::one(), w: pos.z },
            r3: Vec4 { x: Scalar::zero(), y: Scalar::zero(), z: Scalar::zero(), w: Scalar::one() },
        }
    }

    /// Multiplies `self` in place by a flexible Euler rotation, angles in
    /// degrees.
    pub fn rotate_by_euler_flex_deg(&mut self, angles: Vec3, order: RotationOrder)
        requires
            mat4_mul_fits(
                old(self)@,
                mat4_embed_v(
                    rot3_flex_v(
                        Vec3V {
                            x: mul_v(angles@.x, DEG_TO_RAD_RAW as int),
                            y: mul_v(angles@.y, DEG_TO_RAD_RAW as int),
                            z: mul_v(angles@.z, DEG_TO_RAD_RAW as int),
                        },
                        order,
                    ),
                ),
            ),
        ensures
            final(self)@ == mat4_mul_v(
                old(self)@,
                mat4_embed_v(
                    rot3_flex_v(
                        Vec3V {
                            x: mul_v(angles@.x, DEG_TO_RAD_RAW as int),
                            y: mul_v(angles@.y, DEG_TO_RAD_RAW as int),
                            z: mul_v(angles@.z, DEG_TO_RAD_RAW as int),
                        },
                        order,
                    ),
                ),
            ),
    {
        let m = Mat4::get_rotation_mat_flex_euler_deg(angles, order);
        *self = (*self).mul_mat(m);
    }

    /// Multiplies `self` in place by a flexible Euler rotation, angles in
    /// radians.
    pub fn rotate_by_euler_flex_rad(&mut self, angles: Vec3, order: RotationOrder)
        requires
            mat4_mul_fits(old(self)@, mat4_embed_v(rot3_flex_v(angles@, order))),
        ensures
            final(self)@ == mat4_mul_v(old(self)@, mat4_embed_v(rot3_flex_v(angles@, order))),
    {
        let m = Mat4::get_rotation_mat_flex_euler_rad(angles, order);
        *self = (*self).mul_mat(m);
    }

    /// Multiplies `self` in place by an upright-to-object Euler rotation,
    /// angles in degrees.
    pub fn rotate_by_euler_upr_obj_deg(&mut self, pitch: Scalar, heading: Scalar, bank: Scalar)
        requires
            mat4_mul_fits(
                old(self)@,
                mat4_embed_v(
                    rot3_upr_obj_v(
                        mul_v(pitch@, DEG_TO_RAD_RAW as int),
                        mul_v(heading@, DEG_TO_RAD_RAW as int),
                        mul_v(bank@, DEG_TO_RAD_RAW as int),
                    ),
                ),
            ),
        ensures
            final(self)@ == mat4_mul_v(
                old(self)@,
                mat4_embed_v(
                    rot3_upr_obj_v(
                        mul_v(pitch@, DEG_TO_RAD_RAW as int),
                        mul_v(heading@, DEG_TO_RAD_RAW as int),
                        mul_v(bank@, DEG_TO_RAD_RAW as int),
                    ),
                ),
            ),
    {
        let m = Mat4::get_rotation_mat_euler_upr_obj_deg(pitch, heading, bank);
        *self = (*self).mul_mat(m);
    }

    /// Multiplies `self` in place by an upright-to-object Euler rotation,
    /// angles in radians.
    pub fn rotate_by_euler_upr_obj_rad(&mut self, pitch: Scalar, heading: Scalar, bank: Scalar)
        requires
            mat4_mul_fits(old(self)@, mat4_embed_v(rot3_upr_obj_v(pitch@, heading@, bank@))),
        ensures
            final(self)@ == mat4_mul_v(
                old(self)@,
                mat4_embed_v(rot3_upr_obj_v(pitch@, heading@, bank@)),
            ),
    {
        let m = Mat4::get_rotation_mat_euler_upr_obj_rad(pitch, heading, bank);
        *self = (*self).mul_mat(m);
    }

    /// Multiplies `self` in place by an object-to-upright Euler rotation,
    /// angles in degrees.
    pub fn rotate_by_euler_obj_upr_deg(&mut self, pitch: Scalar, heading: Scalar, bank: Scalar)
        requires
            mat4_mul_fits(
                old(self)@,
                mat4_embed_v(
                    rot3_obj_upr_v(
                        mul_v(pitch@, DEG_TO_RAD_RAW as int),
                        mul_v(heading@, DEG_TO_RAD_RAW as int),
                        mul_v(bank@, DEG_TO_RAD_RAW as int),
                    ),
                ),
            ),
        ensures
            final(self)@ == mat4_mul_v(
                old(self)@,
                mat4_embed_v(
                    rot3_obj_upr_v(
                        mul_v(pitch@, DEG_TO_RAD_RAW as int),
                        mul_v(heading@, DEG_TO_RAD_RAW as int),
                        mul_v(bank@, DEG_TO_RAD_RAW as int),
                    ),
                ),
            ),
    {
        let m = Mat4::get_rotation_mat_euler_obj_upr_deg(pitch, heading, bank);
        *self = (*self).mul_mat(m);
    }

    /// Multiplies `self` in place by an object-to-upright Euler rotation,
    /// angles in radians.
    pub fn rotate_by_euler_obj_upr_rad(&mut self, pitch: Scalar, heading: Scalar, bank: Scalar)
        requires
            mat4_mul_fits(old(self)@, mat4_embed_v(rot3_obj_upr_v(pitch@, heading@, bank@))),
        ensures
            final(self)@ == mat4_mul_v(
                old(self)@,
                mat4_embed_v(rot3_obj_upr_v(pitch@, heading@, bank@)),
            ),
    {
        let m = Mat4::get_rotation_mat_euler_obj_upr_rad(pitch, heading, bank);
        *self = (*self).mul_mat(m);
    }

    /// Multiplies `self` in place by a rotation about a unit axis, angle in
    /// degrees.
    pub fn rotate_around_axis_deg(&mut self, n: Vec3, theta: Scalar)
        requires
            is_unit3_v(n@),
            iabs(n@.x) <= 2 * SCALE,
            iabs(n@.y) <= 2 * SCALE,
            iabs(n@.z) <= 2 * SCALE,
            mat4_mul_fits(
                old(self)@,
                mat4_embed_v(rot3_angle_axis_v(n@, mul_v(theta@, DEG_TO_RAD_RAW as int))),
            ),
        ensures
            final(self)@ == mat4_mul_v(
                old(self)@,
                mat4_embed_v(rot3_angle_axis_v(n@, mul_v(theta@, DEG_TO_RAD_RAW as int))),
            ),
    {
        let m = Mat4::get_angle_axis_mat_deg(n, theta);
        *self = (*self).mul_mat(m);
    }

    /// Multiplies `self` in place by a rotation about a unit axis, angle in
    /// radians.
    pub fn rotate_around_axis_rad(&mut self, n: Vec3, theta: Scalar)
        requires
            is_unit3_v(n@),
            iabs(n@.x) <= 2 * SCALE,
            iabs(n@.y) <= 2 * SCALE,
            iabs(n@.z) <= 2 * SCALE,
            mat4_mul_fits(old(self)@, mat4_embed_v(rot3_angle_axis_v(n@, theta@))),
        ensures
            final(self)@ == mat4_mul_v(
                old(self)@,
                mat4_embed_v(rot3_angle_axis_v(n@, theta@)),
            ),
    {
        let m = Mat4::get_angle_axis_mat_rad(n, theta);
        *self = (*self).mul_mat(m);
    }

    /// Scales `self` in place by one factor per axis.
    pub fn scale_uniformly(&mut self, factors: Vec3)
        requires
            mat4_mul_fits(old(self)@, mat4_embed_v(scale3_uniform_v(factors@))),
        ensures
            final(self)@ == mat4_mul_v(old(self)@, mat4_embed_v(scale3_uniform_v(factors@))),
    {
        let m = Mat4::get_uniform_scale_mat(factors);
        *self = (*self).mul_mat(m);
    }

    /// Scales `self` in place along the unit axis `n`.
    pub fn scale_along_axis(&mut self, n: Vec3, s: Scalar)
        requires
            is_unit3_v(n@),
            scale3_axis_fits(n@, s@),
            mat4_mul_fits(old(self)@, mat4_embed_v(scale3_axis_v(n@, s@))),
        ensures
            final(self)@ == mat4_mul_v(old(self)@, mat4_embed_v(scale3_axis_v(n@, s@))),
    {
        let m = Mat4::get_scale_along_axis_mat(n, s);
        *self = (*self).mul_mat(m);
    }

    /// Translates `self` in place by `pos`.
    pub fn translate(&mut self, pos: Vec3)
        requires
            mat4_mul_fits(old(self)@, mat4_translation_v(pos@)),
        ensures
            final(self)@ == mat4_mul_v(old(self)@, mat4_translation_v(pos@)),
    {
        let m = Mat4::get_translation_mat(pos);
        *self = (*self).mul_mat(m);
    }

    /// Entrywise negation.
    pub fn neg(self) -> (r: Mat4)
        requires
            fits(-self@.r0.x),
            fits(-self@.r0.y),
            fits(-self@.r0.z),
            fits(-self@.r0.w),
            fits(-self@.r1.x),
            fits(-self@.r1.y),
            fits(-self@.r1.z),
            fits(-self@.r1.w),
            fits(-self@.r2.x),
            fits(-self@.r2.y),
            fits(-self@.r2.z),
            fits(-self@.r2.w),
            fits(-self@.r3.x),
            fits(-self@.r3.y),
            fits(-self@.r3.z),
            fits(-self@.r3.w),
        ensures
            r@ == (Mat4V {
                r0: Vec4V { x: -self@.r0.x, y: -self@.r0.y, z: -self@.r0.z, w: -self@.r0.w },
                r1: Vec4V { x: -self@.r1.x, y: -self@.r1.y, z: -self@.r1.z, w: -self@.r1.w },
                r2: Vec4V { x: -self@.r2.x, y: -self@.r2.y, z: -self@.r2.z, w: -self@.r2.w },
                r3: Vec4V { x: -self@.r3.x, y: -self@.r3.y, z: -self@.r3.z, w: -self@.r3.w },
            }),
    {
        Mat4 { r0: self.r0.neg(), r1: self.r1.neg(), r2: self.r2.neg(), r3: self.r3.neg() }
    }
}

} // verus!
