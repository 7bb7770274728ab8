//! Two-component vectors of fixed-point scalars.

use vstd::prelude::*;
use crate::scalar::Scalar;
use crate::scalar::DEF_EPSILON_RAW;
use crate::scalar::SCALE;
use crate::scalar::approx_eq_v;
use crate::scalar::div_v;
use crate::scalar::fits;
use crate::scalar::imin;
use crate::scalar::lemma_square_nonneg;
use crate::scalar::mul_v;
use crate::scalar::sqrt_v;

verus! {

/// Mathematical model of a `Vec2`: its two raw component values.
pub ghost struct Vec2V {
    pub x: int,
    pub y: int,
}

/// Raw dot product of two modelled vectors.
pub open spec fn dot2_v(a: Vec2V, b: Vec2V) -> int {
    mul_v(a.x, b.x) + mul_v(a.y, b.y)
}

/// All intermediates of `dot2_v` are representable.
pub open spec fn dot2_fits(a: Vec2V, b: Vec2V) -> bool {
    fits(mul_v(a.x, b.x)) && fits(mul_v(a.y, b.y)) && fits(dot2_v(a, b))
}

/// Componentwise difference of two modelled vectors.
pub open spec fn vsub2(a: Vec2V, b: Vec2V) -> Vec2V {
    Vec2V { x: a.x - b.x, y: a.y - b.y }
}

/// Whether the modelled vector has length approximately one.
pub open spec fn is_unit2_v(a: Vec2V) -> bool {
    approx_eq_v(dot2_v(a, a), SCALE as int, DEF_EPSILON_RAW as int)
}

/// Clamp of a raw value to a raw interval.
pub open spec fn iclamp(x: int, lo: int, hi: int) -> int {
    if x < lo {
        lo
    } else if x > hi {
        hi
    } else {
        x
    }
}

/// Discriminant of the refraction formula: `1 - eta^2 * (1 - dot(n, i)^2)`.
pub open spec fn refract2_k(i: Vec2V, n: Vec2V, eta: int) -> int {
    SCALE - mul_v(mul_v(eta, eta), SCALE - mul_v(dot2_v(n, i), dot2_v(n, i)))
}

/// Factor applied to the normal by the refraction formula.
pub open spec fn refract2_f(i: Vec2V, n: Vec2V, eta: int) -> int {
    mul_v(eta, dot2_v(n, i)) + sqrt_v(refract2_k(i, n, eta))
}

/// All intermediates of `refract` are representable.
pub open spec fn refract2_fits(i: Vec2V, n: Vec2V, eta: int) -> bool {
    let d = dot2_v(n, i);
    dot2_fits(n, i) && fits(mul_v(eta, eta)) && fits(mul_v(d, d)) && fits(SCALE - mul_v(d, d))
        && fits(mul_v(mul_v(eta, eta), SCALE - mul_v(d, d))) && fits(refract2_k(i, n, eta)) && fits(
        mul_v(eta, d),
    ) && fits(refract2_f(i, n, eta)) && fits(mul_v(i.x, eta)) && fits(mul_v(i.y, eta)) && fits(
        mul_v(n.x, refract2_f(i, n, eta)),
    ) && fits(mul_v(n.y, refract2_f(i, n, eta))) && fits(
        mul_v(i.x, eta) - mul_v(n.x, refract2_f(i, n, eta)),
    ) && fits(mul_v(i.y, eta) - mul_v(n.y, refract2_f(i, n, eta)))
}

/// A two-component vector, `x` first.
#[derive(Clone, Copy, Debug, PartialEq, Eq, Structural)]
pub struct Vec2 {
    pub x: Scalar,
    pub y: Scalar,
}

impl View for Vec2 {
    type V = Vec2V;

    open spec fn view(&self) -> Vec2V {
        Vec2V { x: self.x@, y: self.y@ }
    }
}

impl Vec2 {
    pub fn zero() -> (r: Vec2)
        ensures
            r@ == (Vec2V { x: 0, y: 0 }),
    {
        Vec2 { x: Scalar::zero(), y: Scalar::zero() }
    }

    pub fn one() -> (r: Vec2)
        ensures
            r@ == (Vec2V { x: SCALE as int, y: SCALE as int }),
    {
        Vec2 { x: Scalar::one(), y: Scalar::one() }
    }

    /// The unit vector along the positive x axis.
    pub fn right() -> (r: Vec2)
        ensures
            r@ == (Vec2V { x: SCALE as int, y: 0 }),
    {
        Vec2 { x: Scalar::one(), y: Scalar::zero() }
    }

    /// The unit vector along the positive y axis.
    pub fn up() -> (r: Vec2)
        ensures
            r@ == (Vec2V { x: 0, y: SCALE as int }),
    {
        Vec2 { x: Scalar::zero(), y: Scalar::one() }
    }

    pub fn new(x: Scalar, y: Scalar) -> (r: Vec2)
        ensures
            r@ == (Vec2V { x: x@, y: y@ }),
    {
        Vec2 { x, y }
    }

    /// The vector with both components equal to `t`.
    pub fn all(t: Scalar) -> (r: Vec2)
        ensures
            r@ == (Vec2V { x: t@, y: t@ }),
    {
        Vec2 { x: t, y: t }
    }

    pub fn dot(self, rhs: Vec2) -> (r: Scalar)
        requires
            dot2_fits(self@, rhs@),
        ensures
            r@ == dot2_v(self@, rhs@),
    {
        self.x.mul(rhs.x).add(self.y.mul(rhs.y))
    }

    pub fn length_squared(self) -> (r: Scalar)
        requires
            dot2_fits(self@, self@),
        ensures
            r@ == dot2_v(self@, self@),
    {
        self.dot(self)
    }

    pub fn length(self) -> (r: Scalar)
        requires
            dot2_fits(self@, self@),
        ensures
            r@ == sqrt_v(dot2_v(self@, self@)),
            crate::scalar::is_sqrt(dot2_v(self@, self@), r@),
    {
        proof {
            lemma_square_nonneg(self@.x);
            lemma_square_nonneg(self@.y);
        }
        self.length_squared().sqrt()
    }

    /// Whether the squared length is approximately one.
    pub fn is_unit(&self) -> (r: bool)
        requires
            dot2_fits(self@, self@),
        ensures
            r == is_unit2_v(self@),
    {
        self.length_squared().approx_eq_def(Scalar::one())
    }

    pub fn size() -> (r: usize)
        ensures
            r == 2usize,
    {
        2
    }

    /// The vector scaled to approximately unit length by dividing each
    /// component by the length.
    pub fn normalized(&self) -> (r: Vec2)
        requires
            dot2_fits(self@, self@),
            dot2_v(self@, self@) != 0,
            fits(div_v(self@.x, sqrt_v(dot2_v(self@, self@)))),
            fits(div_v(self@.y, sqrt_v(dot2_v(self@, self@)))),
        ensures
            r@.x == div_v(self@.x, sqrt_v(dot2_v(self@, self@))),
            r@.y == div_v(self@.y, sqrt_v(dot2_v(self@, self@))),
    {
        let len = self.length();
        proof {
            lemma_square_nonneg(self@.x);
            lemma_square_nonneg(self@.y);
            assert(dot2_v(self@, self@) >= 1);
            crate::scalar::lemma_sqrt_pos(dot2_v(self@, self@), len@);
        }
        Vec2 { x: self.x.div(len), y: self.y.div(len) }
    }

    /// Scales the vector in place to approximately unit length.
    pub fn normalize(&mut self)
        requires
            dot2_fits(old(self)@, old(self)@),
            dot2_v(old(self)@, old(self)@) != 0,
            fits(div_v(old(self)@.x, sqrt_v(dot2_v(old(self)@, old(self)@)))),
            fits(div_v(old(self)@.y, sqrt_v(dot2_v(old(self)@, old(self)@)))),
        ensures
            final(self)@.x == div_v(old(self)@.x, sqrt_v(dot2_v(old(self)@, old(self)@))),
            final(self)@.y == div_v(old(self)@.y, sqrt_v(dot2_v(old(self)@, old(self)@))),
    {
        let r = self.normalized();
        self.x = r.x;
        self.y = r.y;
    }

    pub fn add(self, rhs: Vec2) -> (r: Vec2)
        requires
            fits(self@.x + rhs@.x),
            fits(self@.y + rhs@.y),
        ensures
            r@ == (Vec2V { x: self@.x + rhs@.x, y: self@.y + rhs@.y }),
    {
        Vec2 { x: self.x.add(rhs.x), y: self.y.add(rhs.y) }
    }

    pub fn sub(self, rhs: Vec2) -> (r: Vec2)
        requires
            fits(self@.x - rhs@.x),
            fits(self@.y - rhs@.y),
        ensures
            r@ == vsub2(self@, rhs@),
    {
        Vec2 { x: self.x.sub(rhs.x), y: self.y.sub(rhs.y) }
    }

    pub fn neg(self) -> (r: Vec2)
        requires
            fits(-self@.x),
            fits(-self@.y),
        ensures
            r@ == (Vec2V { x: -self@.x, y: -self@.y }),
    {
        Vec2 { x: self.x.neg(), y: self.y.neg() }
    }

    /// Componentwise product.
    pub fn mul(self, rhs: Vec2) -> (r: Vec2)
        requires
            fits(mul_v(self@.x, rhs@.x)),
            fits(mul_v(self@.y, rhs@.y)),
        ensures
            r@ == (Vec2V { x: mul_v(self@.x, rhs@.x), y: mul_v(self@.y, rhs@.y) }),
    {
        Vec2 { x: self.x.mul(rhs.x), y: self.y.mul(rhs.y) }
    }

    /// Product with one scalar.
    pub fn scale(self, rhs: Scalar) -> (r: Vec2)
        requires
            fits(mul_v(self@.x, rhs@)),
            fits(mul_v(self@.y, rhs@)),
        ensures
            r@ == (Vec2V { x: mul_v(self@.x, rhs@), y: mul_v(self@.y, rhs@) }),
    {
        Vec2 { x: self.x.mul(rhs), y: self.y.mul(rhs) }
    }

    /// Componentwise quotient.
    pub fn div(self, rhs: Vec2) -> (r: Vec2)
        requires
            rhs@.x != 0,
            rhs@.y != 0,
            fits(div_v(self@.x, rhs@.x)),
            fits(div_v(self@.y, rhs@.y)),
        ensures
            r@ == (Vec2V { x: div_v(self@.x, rhs@.x), y: div_v(self@.y, rhs@.y) }),
    {
        Vec2 { x: self.x.div(rhs.x), y: self.y.div(rhs.y) }
    }

    /// Quotient by one scalar.
    pub fn div_scalar(self, rhs: Scalar) -> (r: Vec2)
        requires
            rhs@ != 0,
            fits(div_v(self@.x, rhs@)),
            fits(div_v(self@.y, rhs@)),
        ensures
            r@ == (Vec2V { x: div_v(self@.x, rhs@), y: div_v(self@.y, rhs@) }),
    {
        Vec2 { x: self.x.div(rhs), y: self.y.div(rhs) }
    }

    /// Mirrors the direction `i` over the unit normal `n`.
    pub fn reflect(i: Vec2, n: Vec2) -> (r: Vec2)
        requires
            dot2_fits(n@, i@),
            is_unit2_v(n@),
            fits(mul_v(n@.x, 2 * dot2_v(n@, i@))),
            fits(mul_v(n@.y, 2 * dot2_v(n@, i@))),
            fits(2 * dot2_v(n@, i@)),
            fits(mul_v(n@.x, 2 * dot2_v(n@, i@)) - i@.x),
            fits(mul_v(n@.y, 2 * dot2_v(n@, i@)) - i@.y),
        ensures
            r@.x == mul_v(n@.x, 2 * dot2_v(n@, i@)) - i@.x,
            r@.y == mul_v(n@.y, 2 * dot2_v(n@, i@)) - i@.y,
    {
        let d = n.dot(i);
        let t = d.add(d);
        Vec2 { x: n.x.mul(t).sub(i.x), y: n.y.mul(t).sub(i.y) }
    }

    /// Bends the direction `i` through a surface with unit normal `n` and
    /// refraction ratio `eta`; a negative discriminant means total internal
    /// reflection and yields the zero vector.
    pub fn refract(i: Vec2, n: Vec2, eta: Scalar) -> (r: Vec2)
        requires
            is_unit2_v(n@),
            refract2_fits(i@, n@, eta@),
        ensures
            refract2_k(i@, n@, eta@) < 0 ==> r@ == (Vec2V { x: 0, y: 0 }),
            refract2_k(i@, n@, eta@) >= 0 ==> r@.x == mul_v(i@.x, eta@) - mul_v(
                n@.x,
                refract2_f(i@, n@, eta@),
            ),
            refract2_k(i@, n@, eta@) >= 0 ==> r@.y == mul_v(i@.y, eta@) - mul_v(
                n@.y,
                refract2_f(i@, n@, eta@),
            ),
    {
        let d = n.dot(i);
        let k = Scalar::one().sub(eta.mul(eta).mul(Scalar::one().sub(d.mul(d))));
        if k.raw() < 0 {
            Vec2::zero()
        } else {
            let f = eta.mul(d).add(k.sqrt());
            Vec2 { x: i.x.mul(eta).sub(n.x.mul(f)), y: i.y.mul(eta).sub(n.y.mul(f)) }
        }
    }

    /// Largest component.
    pub fn get_largest(&self) -> (r: Scalar)
        ensures
            r@ == if self@.x >= self@.y { self@.x } else { self@.y },
    {
        self.x.max(self.y)
    }

    /// Smallest component.
    pub fn get_smallest(&self) -> (r: Scalar)
        ensures
            r@ == imin(self@.x, self@.y),
    {
        self.x.min(self.y)
    }

    /// Index of the largest component, preferring the earlier on ties.
    pub fn get_largest_index(&self) -> (r: usize)
        ensures
            r == if self@.y > self@.x { 1usize } else { 0usize },
    {
        let mut i: usize = 0;
        if self.y.raw() > self.x.raw() {
            i = 1;
        }
        i
    }

    /// Index of the smallest component, preferring the earlier on ties.
    pub fn get_smallest_index(&self) -> (r: usize)
        ensures
            r == if self@.y < self@.x { 1usize } else { 0usize },
    {
        let mut i: usize = 0;
        if self.y.raw() < self.x.raw() {
            i = 1;
        }
        i
    }

    /// Length of the difference of the two vectors.
    pub fn distance(a: Vec2, b: Vec2) -> (r: Scalar)
        requires
            fits(b@.x - a@.x),
            fits(b@.y - a@.y),
            dot2_fits(vsub2(b@, a@), vsub2(b@, a@)),
        ensures
            r@ == sqrt_v(dot2_v(vsub2(b@, a@), vsub2(b@, a@))),
    {
        b.sub(a).length()
    }

    /// Componentwise blend `(b - a) * (1 - t)`.
    pub fn mix(a: Vec2, b: Vec2, t: Vec2) -> (r: Vec2)
        requires
            fits(b@.x - a@.x),
            fits(b@.y - a@.y),
            fits(mul_v(b@.x - a@.x, SCALE - t@.x)),
            fits(mul_v(b@.y - a@.y, SCALE - t@.y)),
            fits(SCALE - t@.x),
            fits(SCALE - t@.y),
        ensures
            r@.x == mul_v(b@.x - a@.x, SCALE - t@.x),
            r@.y == mul_v(b@.y - a@.y, SCALE - t@.y),
    {
        let d = b.sub(a);
        let u = Vec2::one().sub(t);
        d.mul(u)
    }

    /// Blend `(b - a) * (1 - t)` with one scalar weight.
    pub fn mix_all(a: Vec2, b: Vec2, t: Scalar) -> (r: Vec2)
        requires
            fits(b@.x - a@.x),
            fits(b@.y - a@.y),
            fits(SCALE - t@),
            fits(mul_v(b@.x - a@.x, SCALE - t@)),
            fits(mul_v(b@.y - a@.y, SCALE - t@)),
        ensures
            r@.x == mul_v(b@.x - a@.x, SCALE - t@),
            r@.y == mul_v(b@.y - a@.y, SCALE - t@),
    {
        let d = b.sub(a);
        let u = Scalar::one().sub(t);
        d.scale(u)
    }

    /// Componentwise clamp into `[min, max]`.
    pub fn clamp(a: Vec2, min: Vec2, max: Vec2) -> (r: Vec2)
        ensures
            r@.x == iclamp(a@.x, min@.x, max@.x),
            r@.y == iclamp(a@.y, min@.y, max@.y),
    {
        Vec2 { x: clamp_scalar(a.x, min.x, max.x), y: clamp_scalar(a.y, min.y, max.y) }
    }

    /// Componentwise clamp into one scalar interval.
    pub fn clamp_all(a: Vec2, min: Scalar, max: Scalar) -> (r: Vec2)
        ensures
            r@.x == iclamp(a@.x, min@, max@),
            r@.y == iclamp(a@.y, min@, max@),
    {
        Vec2 { x: clamp_scalar(a.x, min, max), y: clamp_scalar(a.y, min, max) }
    }
}

/// Clamp of one scalar into `[lo, hi]`.
pub fn clamp_scalar(x: Scalar, lo: Scalar, hi: Scalar) -> (r: Scalar)
    ensures
        r@ == iclamp(x@, lo@, hi@),
{
    if x.raw() < lo.raw() {
        lo
    } else if x.raw() > hi.raw() {
        hi
    } else {
        x
    }
}

} // verus!
