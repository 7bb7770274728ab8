//! 2x2 row-major matrices of fixed-point scalars.

use vstd::prelude::*;
use crate::SingularMatrix;
use crate::scalar::Scalar;
use crate::scalar::DEF_EPSILON_RAW;
use crate::scalar::SCALE;
use crate::scalar::div_v;
use crate::scalar::fits;
use crate::scalar::iabs;
use crate::scalar::lemma_mul_v_one;
use crate::scalar::lemma_mul_v_zero;
use crate::scalar::mul_v;
use crate::trig::cos_v;
use crate::trig::sin_v;
use crate::vec2::Vec2;
use crate::vec2::Vec2V;
use crate::vec2::dot2_v;
use crate::vec2::dot2_fits;

verus! {

/// Mathematical model of a `Mat2`: its two rows.
pub ghost struct Mat2V {
    pub r0: Vec2V,
    pub r1: Vec2V,
}

/// Model of the identity matrix.
pub open spec fn mat2_identity_v() -> Mat2V {
    Mat2V { r0: Vec2V { x: SCALE as int, y: 0 }, r1: Vec2V { x: 0, y: SCALE as int } }
}

/// First column of a modelled matrix, as a vector.
pub open spec fn mat2_colx(m: Mat2V) -> Vec2V {
    Vec2V { x: m.r0.x, y: m.r1.x }
}

/// Second column of a modelled matrix, as a vector.
pub open spec fn mat2_coly(m: Mat2V) -> Vec2V {
    Vec2V { x: m.r0.y, y: m.r1.y }
}

/// Model of the transpose.
pub open spec fn mat2_transpose_v(m: Mat2V) -> Mat2V {
    Mat2V { r0: mat2_colx(m), r1: mat2_coly(m) }
}

/// Raw determinant: the two-term cofactor expansion.
pub open spec fn det2_v(m: Mat2V) -> int {
    mul_v(m.r0.x, m.r1.y) - mul_v(m.r1.x, m.r0.y)
}

/// All intermediates of `det2_v` are representable.
pub open spec fn det2_fits(m: Mat2V) -> bool {
    fits(mul_v(m.r0.x, m.r1.y)) && fits(mul_v(m.r1.x, m.r0.y)) && fits(det2_v(m))
}

/// Model of the adjugate: the transposed cofactor matrix.
pub open spec fn adj2_v(m: Mat2V) -> Mat2V {
    Mat2V { r0: Vec2V { x: m.r1.y, y: -m.r0.y }, r1: Vec2V { x: -m.r1.x, y: m.r0.x } }
}

/// Model of the matrix product: row-by-column dot products.
pub open spec fn mat2_mul_v(a: Mat2V, b: Mat2V) -> Mat2V {
    Mat2V {
        r0: Vec2V { x: dot2_v(a.r0, mat2_colx(b)), y: dot2_v(a.r0, mat2_coly(b)) },
        r1: Vec2V { x: dot2_v(a.r1, mat2_colx(b)), y: dot2_v(a.r1, mat2_coly(b)) },
    }
}

/// All intermediates of `mat2_mul_v` are representable.
pub open spec fn mat2_mul_fits(a: Mat2V, b: Mat2V) -> bool {
    dot2_fits(a.r0, mat2_colx(b)) && dot2_fits(a.r0, mat2_coly(b)) && dot2_fits(
        a.r1,
        mat2_colx(b),
    ) && dot2_fits(a.r1, mat2_coly(b))
}

/// Whether the modelled matrix counts as singular: its determinant lies
/// within the default tolerance of zero.
pub open spec fn mat2_singular_v(m: Mat2V) -> bool {
    iabs(det2_v(m)) < DEF_EPSILON_RAW
}

/// Model of the inverse: the adjugate divided entrywise by the determinant.
pub open spec fn mat2_inverse_v(m: Mat2V) -> Mat2V {
    let d = det2_v(m);
    Mat2V {
        r0: Vec2V { x: div_v(m.r1.y, d), y: div_v(-m.r0.y, d) },
        r1: Vec2V { x: div_v(-m.r1.x, d), y: div_v(m.r0.x, d) },
    }
}

/// All intermediates of the inverse are representable.
pub open spec fn mat2_inverse_fits(m: Mat2V) -> bool {
    let d = det2_v(m);
    fits(-m.r0.y) && fits(-m.r1.x) && (d != 0 ==> fits(div_v(m.r1.y, d)) && fits(
        div_v(-m.r0.y, d),
    ) && fits(div_v(-m.r1.x, d)) && fits(div_v(m.r0.x, d)))
}

/// Whether every entry of the modelled matrix is representable.
pub open spec fn mat2_fits(m: Mat2V) -> bool {
    fits(m.r0.x) && fits(m.r0.y) && fits(m.r1.x) && fits(m.r1.y)
}

/// Multiplying by the identity, on either side, is exact for every
/// representable matrix, and never overflows.
pub proof fn lemma_mat2_mul_identity(m: Mat2V)
    requires
        mat2_fits(m),
    ensures
        mat2_mul_v(m, mat2_identity_v()) == m,
        mat2_mul_v(mat2_identity_v(), m) == m,
        mat2_mul_fits(m, mat2_identity_v()),
        mat2_mul_fits(mat2_identity_v(), m),
{
    lemma_mul_v_one(m.r0.x);
    lemma_mul_v_one(m.r0.y);
    lemma_mul_v_one(m.r1.x);
    lemma_mul_v_one(m.r1.y);
    lemma_mul_v_zero(m.r0.x);
    lemma_mul_v_zero(m.r0.y);
    lemma_mul_v_zero(m.r1.x);
    lemma_mul_v_zero(m.r1.y);
}

/// One entry of the product of a matrix row with a column of the scaled
/// inverse lands near its target `t` (the raw one on the diagonal, zero off
/// it): after scaling by the determinant, the distance is bounded by the
/// rounding of the two divisions, the two products, and the determinant
/// itself.
proof fn lemma_inv_entry_close(a: int, b: int, n1: int, n2: int, det: int, t: int)
    requires
        det != 0,
        iabs(a * n1 + b * n2 - t * det) <= 2 * SCALE,
    ensures
        iabs(mul_v(a, div_v(n1, det)) + mul_v(b, div_v(n2, det)) - t) * ((SCALE as int) * iabs(
            det,
        )) <= 2 * (SCALE as int) * (SCALE as int) + (iabs(a) + iabs(b) + 2 * (SCALE as int)) * iabs(
            det,
        ),
{
    let i1 = div_v(n1, det);
    let i2 = div_v(n2, det);
    let m1 = mul_v(a, i1);
    let m2 = mul_v(b, i2);
    let e1 = i1 * det - n1 * (SCALE as int);
    let e2 = i2 * det - n2 * (SCALE as int);
    let e3 = m1 * (SCALE as int) - a * i1;
    let e4 = m2 * (SCALE as int) - b * i2;
    crate::scalar::lemma_tdiv_error_gen(n1 * (SCALE as int), det);
    crate::scalar::lemma_tdiv_error_gen(n2 * (SCALE as int), det);
    crate::scalar::lemma_tdiv_error_gen(a * i1, SCALE as int);
    crate::scalar::lemma_tdiv_error_gen(b * i2, SCALE as int);
    assert(m1 * ((SCALE as int) * det) == a * (n1 * (SCALE as int)) + a * e1 + e3 * det)
        by (nonlinear_arith)
        requires
            m1 * (SCALE as int) == a * i1 + e3,
            i1 * det == n1 * (SCALE as int) + e1,
    ;
    assert(m2 * ((SCALE as int) * det) == b * (n2 * (SCALE as int)) + b * e2 + e4 * det)
        by (nonlinear_arith)
        requires
            m2 * (SCALE as int) == b * i2 + e4,
            i2 * det == n2 * (SCALE as int) + e2,
    ;
    assert((m1 + m2 - t) * ((SCALE as int) * det) == m1 * ((SCALE as int) * det) + m2 * ((
    SCALE as int) * det) - t * ((SCALE as int) * det)) by (nonlinear_arith);
    assert(a * (n1 * (SCALE as int)) + b * (n2 * (SCALE as int)) - t * ((SCALE as int) * det) == (
    SCALE as int) * (a * n1 + b * n2 - t * det)) by (nonlinear_arith);
    assert(iabs(a * e1) <= iabs(a) * iabs(det)) by (nonlinear_arith)
        requires
            iabs(e1) < iabs(det),
    ;
    assert(iabs(b * e2) <= iabs(b) * iabs(det)) by (nonlinear_arith)
        requires
            iabs(e2) < iabs(det),
    ;
    assert(iabs(e3 * det) <= (SCALE as int) * iabs(det)) by (nonlinear_arith)
        requires
            iabs(e3) < SCALE,
    ;
    assert(iabs(e4 * det) <= (SCALE as int) * iabs(det)) by (nonlinear_arith)
        requires
            iabs(e4) < SCALE,
    ;
    assert(iabs((SCALE as int) * (a * n1 + b * n2 - t * det)) <= 2 * (SCALE as int) * (
    SCALE as int)) by (nonlinear_arith)
        requires
            iabs(a * n1 + b * n2 - t * det) <= 2 * SCALE,
    ;
    assert((iabs(a) + iabs(b) + 2 * (SCALE as int)) * iabs(det) == iabs(a) * iabs(det) + iabs(b)
        * iabs(det) + 2 * ((SCALE as int) * iabs(det))) by (nonlinear_arith);
    crate::scalar::lemma_abs_mul(m1 + m2 - t, (SCALE as int) * det);
    crate::scalar::lemma_abs_mul(SCALE as int, det);
    assert(iabs((SCALE as int) * det) == (SCALE as int) * iabs(det));
}

/// Multiplying an invertible matrix by its computed inverse lands entrywise
/// near the identity: each entry, scaled by the magnitude of the raw
/// determinant and by the scale, sits within a residue made of the rounding
/// of the divisions, of the products, and of the determinant itself.
/// Dividing through, an entry differs from the identity's by at most about
/// two units over the determinant plus the row magnitude over the scale, so
/// the product approaches the identity as the matrix is well conditioned.
pub proof fn lemma_mat2_inverse_product_close(m: Mat2V)
    requires
        det2_v(m) != 0,
    ensures
        iabs(mat2_mul_v(m, mat2_inverse_v(m)).r0.x - SCALE) * ((SCALE as int) * iabs(det2_v(m)))
            <= 2 * (SCALE as int) * (SCALE as int) + (iabs(m.r0.x) + iabs(m.r0.y) + 2 * (
        SCALE as int)) * iabs(det2_v(m)),
        iabs(mat2_mul_v(m, mat2_inverse_v(m)).r0.y) * ((SCALE as int) * iabs(det2_v(m))) <= 2 * (
        SCALE as int) * (SCALE as int) + (iabs(m.r0.x) + iabs(m.r0.y) + 2 * (SCALE as int)) * iabs(
            det2_v(m),
        ),
        iabs(mat2_mul_v(m, mat2_inverse_v(m)).r1.x) * ((SCALE as int) * iabs(det2_v(m))) <= 2 * (
        SCALE as int) * (SCALE as int) + (iabs(m.r1.x) + iabs(m.r1.y) + 2 * (SCALE as int)) * iabs(
            det2_v(m),
        ),
        iabs(mat2_mul_v(m, mat2_inverse_v(m)).r1.y - SCALE) * ((SCALE as int) * iabs(det2_v(m)))
            <= 2 * (SCALE as int) * (SCALE as int) + (iabs(m.r1.x) + iabs(m.r1.y) + 2 * (
        SCALE as int)) * iabs(det2_v(m)),
{
    let a = m.r0.x;
    let b = m.r0.y;
    let c = m.r1.x;
    let d = m.r1.y;
    let det = det2_v(m);
    crate::scalar::lemma_tdiv_error_gen(a * d, SCALE as int);
    crate::scalar::lemma_tdiv_error_gen(c * b, SCALE as int);
    assert(iabs(a * d + b * (-c) - (SCALE as int) * det) <= 2 * SCALE) by (nonlinear_arith)
        requires
            det == mul_v(a, d) - mul_v(c, b),
            iabs(mul_v(a, d) * (SCALE as int) - a * d) < SCALE,
            iabs(mul_v(c, b) * (SCALE as int) - c * b) < SCALE,
    ;
    assert(iabs(c * d + d * (-c)) <= 2 * SCALE) by (nonlinear_arith);
    assert(iabs(a * (-b) + b * a) <= 2 * SCALE) by (nonlinear_arith);
    assert(iabs(c * (-b) + d * a - (SCALE as int) * det) <= 2 * SCALE) by (nonlinear_arith)
        requires
            det == mul_v(a, d) - mul_v(c, b),
            iabs(mul_v(a, d) * (SCALE as int) - a * d) < SCALE,
            iabs(mul_v(c, b) * (SCALE as int) - c * b) < SCALE,
    ;
    lemma_inv_entry_close(a, b, d, -c, det, SCALE as int);
    lemma_inv_entry_close(a, b, -b, a, det, 0);
    lemma_inv_entry_close(c, d, d, -c, det, 0);
    lemma_inv_entry_close(c, d, -b, a, det, SCALE as int);
}

/// The determinant of the planar rotation by any angle equals the squared
/// length of its first row, exactly: both reduce to the sum of the squared
/// cosine and squared sine, so the rotation's determinant is one precisely
/// as far as that sum is.
pub proof fn lemma_rotation_base_det(theta: int)
    ensures
        det2_v(
            Mat2V {
                r0: Vec2V { x: cos_v(theta), y: sin_v(theta) },
                r1: Vec2V { x: -sin_v(theta), y: cos_v(theta) },
            },
        ) == mul_v(cos_v(theta), cos_v(theta)) + mul_v(sin_v(theta), sin_v(theta)),
{
    crate::scalar::lemma_mul_v_neg(sin_v(theta), sin_v(theta));
}

/// A 2x2 matrix stored as two rows.
#[derive(Clone, Copy, Debug, PartialEq, Eq, Structural)]
pub struct Mat2 {
    pub r0: Vec2,
    pub r1: Vec2,
}

impl View for Mat2 {
    type V = Mat2V;

    open spec fn view(&self) -> Mat2V {
        Mat2V { r0: self.r0@, r1: self.r1@ }
    }
}

impl Mat2 {
    pub fn identity() -> (r: Mat2)
        ensures
            r@ == mat2_identity_v(),
    {
        Mat2 {
            r0: Vec2 { x: Scalar::one(), y: Scalar::zero() },
            r1: Vec2 { x: Scalar::zero(), y: Scalar::one() },
        }
    }

    /// The all-zero matrix.
    pub fn empty() -> (r: Mat2)
        ensures
            r@ == (Mat2V { r0: Vec2V { x: 0, y: 0 }, r1: Vec2V { x: 0, y: 0 } }),
    {
        Mat2 { r0: Vec2::zero(), r1: Vec2::zero() }
    }

    /// Builds the matrix from its four entries in row-major order.
    pub fn new(r0c0: Scalar, r0c1: Scalar, r1c0: Scalar, r1c1: Scalar) -> (r: Mat2)
        ensures
            r@ == (Mat2V {
                r0: Vec2V { x: r0c0@, y: r0c1@ },
                r1: Vec2V { x: r1c0@, y: r1c1@ },
            }),
    {
        Mat2 { r0: Vec2 { x: r0c0, y: r0c1 }, r1: Vec2 { x: r1c0, y: r1c1 } }
    }

    pub fn new_from_vec2s(r0: Vec2, r1: Vec2) -> (r: Mat2)
        ensures
            r@ == (Mat2V { r0: r0@, r1: r1@ }),
    {
        Mat2 { r0, r1 }
    }

    pub fn new_from_arrs(r0: [Scalar; 2], r1: [Scalar; 2]) -> (r: Mat2)
        ensures
            r@ == (Mat2V {
                r0: Vec2V { x: r0[0]@, y: r0[1]@ },
                r1: Vec2V { x: r1[0]@, y: r1[1]@ },
            }),
    {
        Mat2 { r0: Vec2 { x: r0[0], y: r0[1] }, r1: Vec2 { x: r1[0], y: r1[1] } }
    }

    pub fn determinant(&self) -> (r: Scalar)
        requires
            det2_fits(self@),
        ensures
            r@ == det2_v(self@),
    {
        self.r0.x.mul(self.r1.y).sub(self.r1.x.mul(self.r0.y))
    }

    /// The adjugate: the transposed cofactor matrix, exact up to negation.
    pub fn adjoint(&self) -> (r: Mat2)
        requires
            fits(-self@.r0.y),
            fits(-self@.r1.x),
        ensures
            r@ == adj2_v(self@),
    {
        Mat2 {
            r0: Vec2 { x: self.r1.y, y: self.r0.y.neg() },
            r1: Vec2 { x: self.r1.x.neg(), y: self.r0.x },
        }
    }

    /// The inverse, as the adjugate divided by the determinant; a determinant
    /// within the default tolerance of zero is refused as singular.
    pub fn inverse(&self) -> (r: Result<Mat2, SingularMatrix>)
        requires
            det2_fits(self@),
            mat2_inverse_fits(self@),
        ensures
            r is Err <==> mat2_singular_v(self@),
            r is Ok ==> r->Ok_0@ == mat2_inverse_v(self@),
    {
        let det = self.determinant();
        if -DEF_EPSILON_RAW < det.raw() && det.raw() < DEF_EPSILON_RAW {
            Err(SingularMatrix)
        } else {
            Ok(
                Mat2 {
                    r0: Vec2 { x: self.r1.y.div(det), y: self.r0.y.neg().div(det) },
                    r1: Vec2 { x: self.r1.x.neg().div(det), y: self.r0.x.div(det) },
                },
            )
        }
    }

    pub fn transpose(&self) -> (r: Mat2)
        ensures
            r@ == mat2_transpose_v(self@),
    {
        Mat2 {
            r0: Vec2 { x: self.r0.x, y: self.r1.x },
            r1: Vec2 { x: self.r0.y, y: self.r1.y },
        }
    }

    /// The rotation by `theta` radians: cosine and sine placed so that a row
    /// vector multiplied on the left turns counterclockwise.
    pub fn get_rotation_base(theta: Scalar) -> (r: Mat2)
        ensures
            r@ == (Mat2V {
                r0: Vec2V { x: cos_v(theta@), y: sin_v(theta@) },
                r1: Vec2V { x: -sin_v(theta@), y: cos_v(theta@) },
            }),
    {
        let s = theta.sin();
        let c = theta.cos();
        Mat2 { r0: Vec2 { x: c, y: s }, r1: Vec2 { x: s.neg(), y: c } }
    }

    /// Row-by-column matrix product.
    pub fn mul_mat(self, rhs: Mat2) -> (r: Mat2)
        requires
            mat2_mul_fits(self@, rhs@),
        ensures
            r@ == mat2_mul_v(self@, rhs@),
    {
        let t = rhs.transpose();
        Mat2 {
            r0: Vec2 { x: self.r0.dot(t.r0), y: self.r0.dot(t.r1) },
            r1: Vec2 { x: self.r1.dot(t.r0), y: self.r1.dot(t.r1) },
        }
    }

    /// Product with a column vector on the right.
    pub fn mul_vec(self, rhs: Vec2) -> (r: Vec2)
        requires
            dot2_fits(self@.r0, rhs@),
            dot2_fits(self@.r1, rhs@),
        ensures
            r@ == (Vec2V { x: dot2_v(self@.r0, rhs@), y: dot2_v(self@.r1, rhs@) }),
    {
        Vec2 { x: self.r0.dot(rhs), y: self.r1.dot(rhs) }
    }

    /// Entrywise product with one scalar.
    pub fn mul_scalar(self, rhs: Scalar) -> (r: Mat2)
        requires
            fits(mul_v(self@.r0.x, rhs@)),
            fits(mul_v(self@.r0.y, rhs@)),
            fits(mul_v(self@.r1.x, rhs@)),
            fits(mul_v(self@.r1.y, rhs@)),
        ensures
            r@ == (Mat2V {
                r0: Vec2V { x: mul_v(self@.r0.x, rhs@), y: mul_v(self@.r0.y, rhs@) },
                r1: Vec2V { x: mul_v(self@.r1.x, rhs@), y: mul_v(self@.r1.y, rhs@) },
            }),
    {
        Mat2 { r0: self.r0.scale(rhs), r1: self.r1.scale(rhs) }
    }

    /// Entrywise negation.
    pub fn neg(self) -> (r: Mat2)
        requires
            fits(-self@.r0.x),
            fits(-self@.r0.y),
            fits(-self@.r1.x),
            fits(-self@.r1.y),
        ensures
            r@ == (Mat2V {
                r0: Vec2V { x: -self@.r0.x, y: -self@.r0.y },
                r1: Vec2V { x: -self@.r1.x, y: -self@.r1.y },
            }),
    {
        Mat2 { r0: self.r0.neg(), r1: self.r1.neg() }
    }
}

} // verus!
