//! Two-component vectors of 64-bit integers.

use vstd::prelude::*;
use crate::scalar::Scalar;
use crate::scalar::SCALE;
use crate::scalar::fits;
use crate::scalar::lemma_int_square_nonneg;
use crate::scalar::sqrt_v;
use crate::scalar::tdiv;

verus! {

/// Mathematical model of an `IVec2`: its two component values.
pub ghost struct IVec2V {
    pub x: int,
    pub y: int,
}

/// Dot product of two modelled integer vectors.
pub open spec fn idot2_v(a: IVec2V, b: IVec2V) -> int {
    a.x * b.x + a.y * b.y
}

/// All intermediates of `idot2_v` are representable.
pub open spec fn idot2_fits(a: IVec2V, b: IVec2V) -> bool {
    fits(a.x * b.x) && fits(a.y * b.y) && fits(idot2_v(a, b))
}

/// Truncating division of machine integers, shared by the integer vectors.
pub fn idiv_i64(a: i64, b: i64) -> (r: i64)
    requires
        b != 0,
        fits(tdiv(a as int, b as int)),
    ensures
        r as int == tdiv(a as int, b as int),
{
    let am: u64 = if a >= 0 {
        a as u64
    } else {
        (-(a as i128)) as u64
    };
    let bm: u64 = if b >= 0 {
        b as u64
    } else {
        (-(b as i128)) as u64
    };
    let q: u64 = am / bm;
    if (a >= 0) == (b >= 0) {
        q as i64
    } else {
        (-(q as i128)) as i64
    }
}

/// A two-component integer vector.
#[derive(Clone, Copy, Debug, PartialEq, Eq, Structural)]
pub struct IVec2 {
    pub x: i64,
    pub y: i64,
}

impl View for IVec2 {
    type V = IVec2V;

    open spec fn view(&self) -> IVec2V {
        IVec2V { x: self.x as int, y: self.y as int }
    }
}

impl IVec2 {
    pub fn zero() -> (r: IVec2)
        ensures
            r@ == (IVec2V { x: 0, y: 0 }),
    {
        IVec2 { x: 0, y: 0 }
    }

    pub fn one() -> (r: IVec2)
        ensures
            r@ == (IVec2V { x: 1, y: 1 }),
    {
        IVec2 { x: 1, y: 1 }
    }

    /// The unit vector along the positive x axis.
    pub fn right() -> (r: IVec2)
        ensures
            r@ == (IVec2V { x: 1, y: 0 }),
    {
        IVec2 { x: 1, y: 0 }
    }

    /// The unit vector along the positive y axis.
    pub fn up() -> (r: IVec2)
        ensures
            r@ == (IVec2V { x: 0, y: 1 }),
    {
        IVec2 { x: 0, y: 1 }
    }

    pub fn new(x: i64, y: i64) -> (r: IVec2)
        ensures
            r@ == (IVec2V { x: x as int, y: y as int }),
    {
        IVec2 { x, y }
    }

    /// The vector with both components equal to `t`.
    pub fn all(t: i64) -> (r: IVec2)
        ensures
            r@ == (IVec2V { x: t as int, y: t as int }),
    {
        IVec2 { x: t, y: t }
    }

    pub fn dot(self, rhs: IVec2) -> (r: i64)
        requires
            idot2_fits(self@, rhs@),
        ensures
            r as int == idot2_v(self@, rhs@),
    {
        self.x * rhs.x + self.y * rhs.y
    }

    pub fn length_squared(self) -> (r: i64)
        requires
            idot2_fits(self@, self@),
        ensures
            r as int == idot2_v(self@, self@),
    {
        self.dot(self)
    }

    /// Length as a fixed-point scalar: the square root of the squared length.
    pub fn length(self) -> (r: Scalar)
        requires
            idot2_fits(self@, self@),
            idot2_v(self@, self@) <= 2147483647,
        ensures
            r@ == sqrt_v(idot2_v(self@, self@) * (SCALE as int)),
    {
        proof {
            lemma_int_square_nonneg(self@.x);
            lemma_int_square_nonneg(self@.y);
        }
        let ls = self.length_squared();
        Scalar::from_int(ls).sqrt()
    }

    /// Whether the squared length is exactly one.
    pub fn is_unit(&self) -> (r: bool)
        requires
            idot2_fits(self@, self@),
        ensures
            r == (idot2_v(self@, self@) == 1),
    {
        self.length_squared() == 1
    }

    pub fn size() -> (r: usize)
        ensures
            r == 2usize,
    {
        2
    }

    pub fn add(self, rhs: IVec2) -> (r: IVec2)
        requires
            fits(self@.x + rhs@.x),
            fits(self@.y + rhs@.y),
        ensures
            r@ == (IVec2V { x: self@.x + rhs@.x, y: self@.y + rhs@.y }),
    {
        IVec2 { x: self.x + rhs.x, y: self.y + rhs.y }
    }

    pub fn sub(self, rhs: IVec2) -> (r: IVec2)
        requires
            fits(self@.x - rhs@.x),
            fits(self@.y - rhs@.y),
        ensures
            r@ == (IVec2V { x: self@.x - rhs@.x, y: self@.y - rhs@.y }),
    {
        IVec2 { x: self.x - rhs.x, y: self.y - rhs.y }
    }

    pub fn neg(self) -> (r: IVec2)
        requires
            fits(-self@.x),
            fits(-self@.y),
        ensures
            r@ == (IVec2V { x: -self@.x, y: -self@.y }),
    {
        IVec2 { x: -self.x, y: -self.y }
    }

    /// Componentwise product.
    pub fn mul(self, rhs: IVec2) -> (r: IVec2)
        requires
            fits(self@.x * rhs@.x),
            fits(self@.y * rhs@.y),
        ensures
            r@ == (IVec2V { x: self@.x * rhs@.x, y: self@.y * rhs@.y }),
    {
        IVec2 { x: self.x * rhs.x, y: self.y * rhs.y }
    }

    /// Product with one integer.
    pub fn scale(self, rhs: i64) -> (r: IVec2)
        requires
            fits(self@.x * rhs),
            fits(self@.y * rhs),
        ensures
            r@ == (IVec2V { x: self@.x * rhs, y: self@.y * rhs }),
    {
        IVec2 { x: self.x * rhs, y: self.y * rhs }
    }

    /// Componentwise truncating quotient.
    pub fn div(self, rhs: IVec2) -> (r: IVec2)
        requires
            rhs@.x != 0,
            rhs@.y != 0,
            fits(tdiv(self@.x, rhs@.x)),
            fits(tdiv(self@.y, rhs@.y)),
        ensures
            r@ == (IVec2V { x: tdiv(self@.x, rhs@.x), y: tdiv(self@.y, rhs@.y) }),
    {
        IVec2 { x: idiv_i64(self.x, rhs.x), y: idiv_i64(self.y, rhs.y) }
    }

    /// Truncating quotient by one integer.
    pub fn div_scalar(self, rhs: i64) -> (r: IVec2)
        requires
            rhs != 0,
            fits(tdiv(self@.x, rhs as int)),
            fits(tdiv(self@.y, rhs as int)),
        ensures
            r@ == (IVec2V { x: tdiv(self@.x, rhs as int), y: tdiv(self@.y, rhs as int) }),
    {
        IVec2 { x: idiv_i64(self.x, rhs), y: idiv_i64(self.y, rhs) }
    }
}

} // verus!
