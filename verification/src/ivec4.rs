//! Four-component vectors of 64-bit integers.

use vstd::prelude::*;
use crate::ivec2::idiv_i64;
use crate::scalar::Scalar;
use crate::scalar::SCALE;
use crate::scalar::fits;
use crate::scalar::lemma_int_square_nonneg;
use crate::scalar::sqrt_v;
use crate::scalar::tdiv;

verus! {

/// Mathematical model of an `IVec4`: its four component values.
pub ghost struct IVec4V {
    pub x: int,
    pub y: int,
    pub z: int,
    pub w: int,
}

/// Dot product of two modelled integer vectors.
pub open spec fn idot4_v(a: IVec4V, b: IVec4V) -> int {
    a.x * b.x + a.y * b.y + a.z * b.z + a.w * b.w
}

/// All intermediates of `idot4_v` are representable.
pub open spec fn idot4_fits(a: IVec4V, b: IVec4V) -> bool {
    fits(a.x * b.x) && fits(a.y * b.y) && fits(a.z * b.z) && fits(a.w * b.w) && fits(
        a.x * b.x + a.y * b.y,
    ) && fits(a.x * b.x + a.y * b.y + a.z * b.z) && fits(idot4_v(a, b))
}

/// A four-component integer vector.
#[derive(Clone, Copy, Debug, PartialEq, Eq, Structural)]
pub struct IVec4 {
    pub x: i64,
    pub y: i64,
    pub z: i64,
    pub w: i64,
}

impl View for IVec4 {
    type V = IVec4V;

    open spec fn view(&self) -> IVec4V {
        IVec4V { x: self.x as int, y: self.y as int, z: self.z as int, w: self.w as int }
    }
}

impl IVec4 {
    pub fn zero() -> (r: IVec4)
        ensures
            r@ == (IVec4V { x: 0, y: 0, z: 0, w: 0 }),
    {
        IVec4 { x: 0, y: 0, z: 0, w: 0 }
    }

    pub fn one() -> (r: IVec4)
        ensures
            r@ == (IVec4V { x: 1, y: 1, z: 1, w: 1 }),
    {
        IVec4 { x: 1, y: 1, z: 1, w: 1 }
    }

    /// The unit vector along the positive x axis.
    pub fn right() -> (r: IVec4)
        ensures
            r@ == (IVec4V { x: 1, y: 0, z: 0, w: 0 }),
    {
        IVec4 { x: 1, y: 0, z: 0, w: 0 }
    }

    /// The unit vector along the positive y axis.
    pub fn up() -> (r: IVec4)
        ensures
            r@ == (IVec4V { x: 0, y: 1, z: 0, w: 0 }),
    {
        IVec4 { x: 0, y: 1, z: 0, w: 0 }
    }

    /// The unit vector along the positive z axis.
    pub fn forward() -> (r: IVec4)
        ensures
            r@ == (IVec4V { x: 0, y: 0, z: 1, w: 0 }),
    {
        IVec4 { x: 0, y: 0, z: 1, w: 0 }
    }

    /// The unit vector along the positive w axis.
    pub fn w_only() -> (r: IVec4)
        ensures
            r@ == (IVec4V { x: 0, y: 0, z: 0, w: 1 }),
    {
        IVec4 { x: 0, y: 0, z: 0, w: 1 }
    }

    pub fn new(x: i64, y: i64, z: i64, w: i64) -> (r: IVec4)
        ensures
            r@ == (IVec4V { x: x as int, y: y as int, z: z as int, w: w as int }),
    {
        IVec4 { x, y, z, w }
    }

    /// The vector with all four components equal to `t`.
    pub fn all(t: i64) -> (r: IVec4)
        ensures
            r@ == (IVec4V { x: t as int, y: t as int, z: t as int, w: t as int }),
    {
        IVec4 { x: t, y: t, z: t, w: t }
    }

    pub fn dot(self, rhs: IVec4) -> (r: i64)
        requires
            idot4_fits(self@, rhs@),
        ensures
            r as int == idot4_v(self@, rhs@),
    {
        self.x * rhs.x + self.y * rhs.y + self.z * rhs.z + self.w * rhs.w
    }

    pub fn length_squared(self) -> (r: i64)
        requires
            idot4_fits(self@, self@),
        ensures
            r as int == idot4_v(self@, self@),
    {
        self.dot(self)
    }

    /// Length as a fixed-point scalar: the square root of the squared length.
    pub fn length(self) -> (r: Scalar)
        requires
            idot4_fits(self@, self@),
            idot4_v(self@, self@) <= 2147483647,
        ensures
            r@ == sqrt_v(idot4_v(self@, self@) * (SCALE as int)),
    {
        proof {
            lemma_int_square_nonneg(self@.x);
            lemma_int_square_nonneg(self@.y);
            lemma_int_square_nonneg(self@.z);
            lemma_int_square_nonneg(self@.w);
        }
        let ls = self.length_squared();
        Scalar::from_int(ls).sqrt()
    }

    /// Whether the squared length is exactly one.
    pub fn is_unit(&self) -> (r: bool)
        requires
            idot4_fits(self@, self@),
        ensures
            r == (idot4_v(self@, self@) == 1),
    {
        self.length_squared() == 1
    }

    pub fn size() -> (r: usize)
        ensures
            r == 4usize,
    {
        4
    }

    pub fn add(self, rhs: IVec4) -> (r: IVec4)
        requires
            fits(self@.x + rhs@.x),
            fits(self@.y + rhs@.y),
            fits(self@.z + rhs@.z),
            fits(self@.w + rhs@.w),
        ensures
            r@ == (IVec4V {
                x: self@.x + rhs@.x,
                y: self@.y + rhs@.y,
                z: self@.z + rhs@.z,
                w: self@.w + rhs@.w,
            }),
    {
        IVec4 { x: self.x + rhs.x, y: self.y + rhs.y, z: self.z + rhs.z, w: self.w + rhs.w }
    }

    pub fn sub(self, rhs: IVec4) -> (r: IVec4)
        requires
            fits(self@.x - rhs@.x),
            fits(self@.y - rhs@.y),
            fits(self@.z - rhs@.z),
            fits(self@.w - rhs@.w),
        ensures
            r@ == (IVec4V {
                x: self@.x - rhs@.x,
                y: self@.y - rhs@.y,
                z: self@.z - rhs@.z,
                w: self@.w - rhs@.w,
            }),
    {
        IVec4 { x: self.x - rhs.x, y: self.y - rhs.y, z: self.z - rhs.z, w: self.w - rhs.w }
    }

    pub fn neg(self) -> (r: IVec4)
        requires
            fits(-self@.x),
            fits(-self@.y),
            fits(-self@.z),
            fits(-self@.w),
        ensures
            r@ == (IVec4V { x: -self@.x, y: -self@.y, z: -self@.z, w: -self@.w }),
    {
        IVec4 { x: -self.x, y: -self.y, z: -self.z, w: -self.w }
    }

    /// Componentwise product.
    pub fn mul(self, rhs: IVec4) -> (r: IVec4)
        requires
            fits(self@.x * rhs@.x),
            fits(self@.y * rhs@.y),
            fits(self@.z * rhs@.z),
            fits(self@.w * rhs@.w),
        ensures
            r@ == (IVec4V {
                x: self@.x * rhs@.x,
                y: self@.y * rhs@.y,
                z: self@.z * rhs@.z,
                w: self@.w * rhs@.w,
            }),
    {
        IVec4 { x: self.x * rhs.x, y: self.y * rhs.y, z: self.z * rhs.z, w: self.w * rhs.w }
    }

    /// Product with one integer.
    pub fn scale(self, rhs: i64) -> (r: IVec4)
        requires
            fits(self@.x * rhs),
            fits(self@.y * rhs),
            fits(self@.z * rhs),
            fits(self@.w * rhs),
        ensures
            r@ == (IVec4V {
                x: self@.x * rhs,
                y: self@.y * rhs,
                z: self@.z * rhs,
                w: self@.w * rhs,
            }),
    {
        IVec4 { x: self.x * rhs, y: self.y * rhs, z: self.z * rhs, w: self.w * rhs }
    }

    /// Componentwise truncating quotient.
    pub fn div(self, rhs: IVec4) -> (r: IVec4)
        requires
            rhs@.x != 0,
            rhs@.y != 0,
            rhs@.z != 0,
            rhs@.w != 0,
            fits(tdiv(self@.x, rhs@.x)),
            fits(tdiv(self@.y, rhs@.y)),
            fits(tdiv(self@.z, rhs@.z)),
            fits(tdiv(self@.w, rhs@.w)),
        ensures
            r@ == (IVec4V {
                x: tdiv(self@.x, rhs@.x),
                y: tdiv(self@.y, rhs@.y),
                z: tdiv(self@.z, rhs@.z),
                w: tdiv(self@.w, rhs@.w),
            }),
    {
        IVec4 {
            x: idiv_i64(self.x, rhs.x),
            y: idiv_i64(self.y, rhs.y),
            z: idiv_i64(self.z, rhs.z),
            w: idiv_i64(self.w, rhs.w),
        }
    }

    /// Truncating quotient by one integer.
    pub fn div_scalar(self, rhs: i64) -> (r: IVec4)
        requires
            rhs != 0,
            fits(tdiv(self@.x, rhs as int)),
            fits(tdiv(self@.y, rhs as int)),
            fits(tdiv(self@.z, rhs as int)),
            fits(tdiv(self@.w, rhs as int)),
        ensures
            r@ == (IVec4V {
                x: tdiv(self@.x, rhs as int),
                y: tdiv(self@.y, rhs as int),
                z: tdiv(self@.z, rhs as int),
                w: tdiv(self@.w, rhs as int),
            }),
    {
        IVec4 {
            x: idiv_i64(self.x, rhs),
            y: idiv_i64(self.y, rhs),
            z: idiv_i64(self.z, rhs),
            w: idiv_i64(self.w, rhs),
        }
    }
}

} // verus!
