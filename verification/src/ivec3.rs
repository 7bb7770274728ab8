//! Three-component vectors of 64-bit integers.

use vstd::prelude::*;
use crate::ivec2::idiv_i64;
use crate::scalar::Scalar;
use crate::scalar::SCALE;
use crate::scalar::fits;
use crate::scalar::lemma_int_square_nonneg;
use crate::scalar::sqrt_v;
use crate::scalar::tdiv;

verus! {

/// Mathematical model of an `IVec3`: its three component values.
pub ghost struct IVec3V {
    pub x: int,
    pub y: int,
    pub z: int,
}

/// Dot product of two modelled integer vectors.
pub open spec fn idot3_v(a: IVec3V, b: IVec3V) -> int {
    a.x * b.x + a.y * b.y + a.z * b.z
}

/// All intermediates of `idot3_v` are representable.
pub open spec fn idot3_fits(a: IVec3V, b: IVec3V) -> bool {
    fits(a.x * b.x) && fits(a.y * b.y) && fits(a.z * b.z) && fits(a.x * b.x + a.y * b.y) && fits(
        idot3_v(a, b),
    )
}

/// Cross product of two modelled integer vectors.
pub open spec fn icross3_v(a: IVec3V, b: IVec3V) -> IVec3V {
    IVec3V {
        x: a.y * b.z - a.z * b.y,
        y: a.z * b.x - a.x * b.z,
        z: a.x * b.y - a.y * b.x,
    }
}

/// All intermediates of `icross3_v` are representable.
pub open spec fn icross3_fits(a: IVec3V, b: IVec3V) -> bool {
    fits(a.y * b.z) && fits(a.z * b.y) && fits(a.z * b.x) && fits(a.x * b.z) && fits(a.x * b.y)
        && fits(a.y * b.x) && fits(icross3_v(a, b).x) && fits(icross3_v(a, b).y) && fits(
        icross3_v(a, b).z,
    )
}

/// A three-component integer vector.
#[derive(Clone, Copy, Debug, PartialEq, Eq, Structural)]
pub struct IVec3 {
    pub x: i64,
    pub y: i64,
    pub z: i64,
}

impl View for IVec3 {
    type V = IVec3V;

    open spec fn view(&self) -> IVec3V {
        IVec3V { x: self.x as int, y: self.y as int, z: self.z as int }
    }
}

impl IVec3 {
    pub fn zero() -> (r: IVec3)
        ensures
            r@ == (IVec3V { x: 0, y: 0, z: 0 }),
    {
        IVec3 { x: 0, y: 0, z: 0 }
    }

    pub fn one() -> (r: IVec3)
        ensures
            r@ == (IVec3V { x: 1, y: 1, z: 1 }),
    {
        IVec3 { x: 1, y: 1, z: 1 }
    }

    /// The unit vector along the positive x axis.
    pub fn right() -> (r: IVec3)
        ensures
            r@ == (IVec3V { x: 1, y: 0, z: 0 }),
    {
        IVec3 { x: 1, y: 0, z: 0 }
    }

    /// The unit vector along the positive y axis.
    pub fn up() -> (r: IVec3)
        ensures
            r@ == (IVec3V { x: 0, y: 1, z: 0 }),
    {
        IVec3 { x: 0, y: 1, z: 0 }
    }

    /// The unit vector along the positive z axis.
    pub fn forward() -> (r: IVec3)
        ensures
            r@ == (IVec3V { x: 0, y: 0, z: 1 }),
    {
        IVec3 { x: 0, y: 0, z: 1 }
    }

    pub fn new(x: i64, y: i64, z: i64) -> (r: IVec3)
        ensures
            r@ == (IVec3V { x: x as int, y: y as int, z: z as int }),
    {
        IVec3 { x, y, z }
    }

    /// The vector with all three components equal to `t`.
    pub fn all(t: i64) -> (r: IVec3)
        ensures
            r@ == (IVec3V { x: t as int, y: t as int, z: t as int }),
    {
        IVec3 { x: t, y: t, z: t }
    }

    pub fn dot(self, rhs: IVec3) -> (r: i64)
        requires
            idot3_fits(self@, rhs@),
        ensures
            r as int == idot3_v(self@, rhs@),
    {
        self.x * rhs.x + self.y * rhs.y + self.z * rhs.z
    }

    pub fn cross(self, rhs: IVec3) -> (r: IVec3)
        requires
            icross3_fits(self@, rhs@),
        ensures
            r@ == icross3_v(self@, rhs@),
    {
        IVec3 {
            x: self.y * rhs.z - self.z * rhs.y,
            y: self.z * rhs.x - self.x * rhs.z,
            z: self.x * rhs.y - self.y * rhs.x,
        }
    }

    pub fn length_squared(self) -> (r: i64)
        requires
            idot3_fits(self@, self@),
        ensures
            r as int == idot3_v(self@, self@),
    {
        self.dot(self)
    }

    /// Length as a fixed-point scalar: the square root of the squared length.
    pub fn length(self) -> (r: Scalar)
        requires
            idot3_fits(self@, self@),
            idot3_v(self@, self@) <= 2147483647,
        ensures
            r@ == sqrt_v(idot3_v(self@, self@) * (SCALE as int)),
    {
        proof {
            lemma_int_square_nonneg(self@.x);
            lemma_int_square_nonneg(self@.y);
            lemma_int_square_nonneg(self@.z);
        }
        let ls = self.length_squared();
        Scalar::from_int(ls).sqrt()
    }

    /// Whether the squared length is exactly one.
    pub fn is_unit(&self) -> (r: bool)
        requires
            idot3_fits(self@, self@),
        ensures
            r == (idot3_v(self@, self@) == 1),
    {
        self.length_squared() == 1
    }

    pub fn size() -> (r: usize)
        ensures
            r == 3usize,
    {
        3
    }

    pub fn add(self, rhs: IVec3) -> (r: IVec3)
        requires
            fits(self@.x + rhs@.x),
            fits(self@.y + rhs@.y),
            fits(self@.z + rhs@.z),
        ensures
            r@ == (IVec3V { x: self@.x + rhs@.x, y: self@.y + rhs@.y, z: self@.z + rhs@.z }),
    {
        IVec3 { x: self.x + rhs.x, y: self.y + rhs.y, z: self.z + rhs.z }
    }

    pub fn sub(self, rhs: IVec3) -> (r: IVec3)
        requires
            fits(self@.x - rhs@.x),
            fits(self@.y - rhs@.y),
            fits(self@.z - rhs@.z),
        ensures
            r@ == (IVec3V { x: self@.x - rhs@.x, y: self@.y - rhs@.y, z: self@.z - rhs@.z }),
    {
        IVec3 { x: self.x - rhs.x, y: self.y - rhs.y, z: self.z - rhs.z }
    }

    pub fn neg(self) -> (r: IVec3)
        requires
            fits(-self@.x),
            fits(-self@.y),
            fits(-self@.z),
        ensures
            r@ == (IVec3V { x: -self@.x, y: -self@.y, z: -self@.z }),
    {
        IVec3 { x: -self.x, y: -self.y, z: -self.z }
    }

    /// Componentwise product.
    pub fn mul(self, rhs: IVec3) -> (r: IVec3)
        requires
            fits(self@.x * rhs@.x),
            fits(self@.y * rhs@.y),
            fits(self@.z * rhs@.z),
        ensures
            r@ == (IVec3V { x: self@.x * rhs@.x, y: self@.y * rhs@.y, z: self@.z * rhs@.z }),
    {
        IVec3 { x: self.x * rhs.x, y: self.y * rhs.y, z: self.z * rhs.z }
    }

    /// Product with one integer.
    pub fn scale(self, rhs: i64) -> (r: IVec3)
        requires
            fits(self@.x * rhs),
            fits(self@.y * rhs),
            fits(self@.z * rhs),
        ensures
            r@ == (IVec3V { x: self@.x * rhs, y: self@.y * rhs, z: self@.z * rhs }),
    {
        IVec3 { x: self.x * rhs, y: self.y * rhs, z: self.z * rhs }
    }

    /// Componentwise truncating quotient.
    pub fn div(self, rhs: IVec3) -> (r: IVec3)
        requires
            rhs@.x != 0,
            rhs@.y != 0,
            rhs@.z != 0,
            fits(tdiv(self@.x, rhs@.x)),
            fits(tdiv(self@.y, rhs@.y)),
            fits(tdiv(self@.z, rhs@.z)),
        ensures
            r@ == (IVec3V {
                x: tdiv(self@.x, rhs@.x),
                y: tdiv(self@.y, rhs@.y),
                z: tdiv(self@.z, rhs@.z),
            }),
    {
        IVec3 {
            x: idiv_i64(self.x, rhs.x),
            y: idiv_i64(self.y, rhs.y),
            z: idiv_i64(self.z, rhs.z),
        }
    }

    /// Truncating quotient by one integer.
    pub fn div_scalar(self, rhs: i64) -> (r: IVec3)
        requires
            rhs != 0,
            fits(tdiv(self@.x, rhs as int)),
            fits(tdiv(self@.y, rhs as int)),
            fits(tdiv(self@.z, rhs as int)),
        ensures
            r@ == (IVec3V {
                x: tdiv(self@.x, rhs as int),
                y: tdiv(self@.y, rhs as int),
                z: tdiv(self@.z, rhs as int),
            }),
    {
        IVec3 {
            x: idiv_i64(self.x, rhs),
            y: idiv_i64(self.y, rhs),
            z: idiv_i64(self.z, rhs),
        }
    }
}

} // verus!
