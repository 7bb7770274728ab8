//! Four-component vectors of fixed-point scalars, in `x`, `y`, `z`, `w` order.

use vstd::prelude::*;
use crate::scalar::Scalar;
use crate::scalar::DEF_EPSILON_RAW;
use crate::scalar::SCALE;
use crate::scalar::approx_eq_v;
use crate::scalar::div_v;
use crate::scalar::fits;
use crate::scalar::imax;
use crate::scalar::imin;
use crate::scalar::lemma_sqrt_pos;
use crate::scalar::lemma_square_nonneg;
use crate::scalar::mul_v;
use crate::scalar::sqrt_v;
use crate::vec2::iclamp;
use crate::vec2::clamp_scalar;

verus! {

/// Mathematical model of a `Vec4`: its four raw component values.
pub ghost struct Vec4V {
    pub x: int,
    pub y: int,
    pub z: int,
    pub w: int,
}

/// Raw dot product of two modelled vectors.
pub open spec fn dot4_v(a: Vec4V, b: Vec4V) -> int {
    mul_v(a.x, b.x) + mul_v(a.y, b.y) + mul_v(a.z, b.z) + mul_v(a.w, b.w)
}

/// All intermediates of `dot4_v` are representable.
pub open spec fn dot4_fits(a: Vec4V, b: Vec4V) -> bool {
    fits(mul_v(a.x, b.x)) && fits(mul_v(a.y, b.y)) && fits(mul_v(a.z, b.z)) && fits(
        mul_v(a.w, b.w),
    ) && fits(mul_v(a.x, b.x) + mul_v(a.y, b.y)) && fits(
        mul_v(a.x, b.x) + mul_v(a.y, b.y) + mul_v(a.z, b.z),
    ) && fits(dot4_v(a, b))
}

/// Componentwise difference of two modelled vectors.
pub open spec fn vsub4(a: Vec4V, b: Vec4V) -> Vec4V {
    Vec4V { x: a.x - b.x, y: a.y - b.y, z: a.z - b.z, w: a.w - b.w }
}

/// Whether the modelled vector has length approximately one.
pub open spec fn is_unit4_v(a: Vec4V) -> bool {
    approx_eq_v(dot4_v(a, a), SCALE as int, DEF_EPSILON_RAW as int)
}

/// Discriminant of the refraction formula: `1 - eta^2 * (1 - dot(n, i)^2)`.
pub open spec fn refract4_k(i: Vec4V, n: Vec4V, eta: int) -> int {
    SCALE - mul_v(mul_v(eta, eta), SCALE - mul_v(dot4_v(n, i), dot4_v(n, i)))
}

/// Factor applied to the normal by the refraction formula.
pub open spec fn refract4_f(i: Vec4V, n: Vec4V, eta: int) -> int {
    mul_v(eta, dot4_v(n, i)) + sqrt_v(refract4_k(i, n, eta))
}

/// All intermediates of `refract` are representable.
pub open spec fn refract4_fits(i: Vec4V, n: Vec4V, eta: int) -> bool {
    let d = dot4_v(n, i);
    let f = refract4_f(i, n, eta);
    dot4_fits(n, i) && fits(mul_v(eta, eta)) && fits(mul_v(d, d)) && fits(SCALE - mul_v(d, d))
        && fits(mul_v(mul_v(eta, eta), SCALE - mul_v(d, d))) && fits(refract4_k(i, n, eta)) && fits(
        mul_v(eta, d),
    ) && fits(f) && fits(mul_v(i.x, eta)) && fits(mul_v(i.y, eta)) && fits(mul_v(i.z, eta)) && fits(
        mul_v(i.w, eta),
    ) && fits(mul_v(n.x, f)) && fits(mul_v(n.y, f)) && fits(mul_v(n.z, f)) && fits(mul_v(n.w, f))
        && fits(mul_v(i.x, eta) - mul_v(n.x, f)) && fits(mul_v(i.y, eta) - mul_v(n.y, f)) && fits(
        mul_v(i.z, eta) - mul_v(n.z, f),
    ) && fits(mul_v(i.w, eta) - mul_v(n.w, f))
}

/// A four-component vector.
#[derive(Clone, Copy, Debug, PartialEq, Eq, Structural)]
pub struct Vec4 {
    pub x: Scalar,
    pub y: Scalar,
    pub z: Scalar,
    pub w: Scalar,
}

impl View for Vec4 {
    type V = Vec4V;

    open spec fn view(&self) -> Vec4V {
        Vec4V { x: self.x@, y: self.y@, z: self.z@, w: self.w@ }
    }
}

impl Vec4 {
    pub fn zero() -> (r: Vec4)
        ensures
            r@ == (Vec4V { x: 0, y: 0, z: 0, w: 0 }),
    {
        Vec4 { x: Scalar::zero(), y: Scalar::zero(), z: Scalar::zero(), w: Scalar::zero() }
    }

    pub fn one() -> (r: Vec4)
        ensures
            r@ == (Vec4V {
                x: SCALE as int,
                y: SCALE as int,
                z: SCALE as int,
                w: SCALE as int,
            }),
    {
        Vec4 { x: Scalar::one(), y: Scalar::one(), z: Scalar::one(), w: Scalar::one() }
    }

    /// The unit vector along the positive x axis.
    pub fn right() -> (r: Vec4)
        ensures
            r@ == (Vec4V { x: SCALE as int, y: 0, z: 0, w: 0 }),
    {
        Vec4 { x: Scalar::one(), y: Scalar::zero(), z: Scalar::zero(), w: Scalar::zero() }
    }

    /// The unit vector along the positive y axis.
    pub fn up() -> (r: Vec4)
        ensures
            r@ == (Vec4V { x: 0, y: SCALE as int, z: 0, w: 0 }),
    {
        Vec4 { x: Scalar::zero(), y: Scalar::one(), z: Scalar::zero(), w: Scalar::zero() }
    }

    /// The unit vector along the positive z axis.
    pub fn forward() -> (r: Vec4)
        ensures
            r@ == (Vec4V { x: 0, y: 0, z: SCALE as int, w: 0 }),
    {
        Vec4 { x: Scalar::zero(), y: Scalar::zero(), z: Scalar::one(), w: Scalar::zero() }
    }

    /// The unit vector along the positive w axis.
    pub fn w_only() -> (r: Vec4)
        ensures
            r@ == (Vec4V { x: 0, y: 0, z: 0, w: SCALE as int }),
    {
        Vec4 { x: Scalar::zero(), y: Scalar::zero(), z: Scalar::zero(), w: Scalar::one() }
    }

    pub fn new(x: Scalar, y: Scalar, z: Scalar, w: Scalar) -> (r: Vec4)
        ensures
            r@ == (Vec4V { x: x@, y: y@, z: z@, w: w@ }),
    {
        Vec4 { x, y, z, w }
    }

    /// The vector with all four components equal to `t`.
    pub fn all(t: Scalar) -> (r: Vec4)
        ensures
            r@ == (Vec4V { x: t@, y: t@, z: t@, w: t@ }),
    {
        Vec4 { x: t, y: t, z: t, w: t }
    }

    pub fn dot(self, rhs: Vec4) -> (r: Scalar)
        requires
            dot4_fits(self@, rhs@),
        ensures
            r@ == dot4_v(self@, rhs@),
    {
        self.x.mul(rhs.x).add(self.y.mul(rhs.y)).add(self.z.mul(rhs.z)).add(self.w.mul(rhs.w))
    }

    pub fn length_squared(self) -> (r: Scalar)
        requires
            dot4_fits(self@, self@),
        ensures
            r@ == dot4_v(self@, self@),
    {
        self.dot(self)
    }

    pub fn length(self) -> (r: Scalar)
        requires
            dot4_fits(self@, self@),
        ensures
            r@ == sqrt_v(dot4_v(self@, self@)),
            crate::scalar::is_sqrt(dot4_v(self@, self@), r@),
    {
        proof {
            lemma_square_nonneg(self@.x);
            lemma_square_nonneg(self@.y);
            lemma_square_nonneg(self@.z);
            lemma_square_nonneg(self@.w);
        }
        self.length_squared().sqrt()
    }

    /// Whether the squared length is approximately one.
    pub fn is_unit(&self) -> (r: bool)
        requires
            dot4_fits(self@, self@),
        ensures
            r == is_unit4_v(self@),
    {
        self.length_squared().approx_eq_def(Scalar::one())
    }

    pub fn size() -> (r: usize)
        ensures
            r == 4usize,
    {
        4
    }

    /// The vector scaled to approximately unit length by dividing each
    /// component by the length.
    pub fn normalized(&self) -> (r: Vec4)
        requires
            dot4_fits(self@, self@),
            dot4_v(self@, self@) != 0,
            fits(div_v(self@.x, sqrt_v(dot4_v(self@, self@)))),
            fits(div_v(self@.y, sqrt_v(dot4_v(self@, self@)))),
            fits(div_v(self@.z, sqrt_v(dot4_v(self@, self@)))),
            fits(div_v(self@.w, sqrt_v(dot4_v(self@, self@)))),
        ensures
            r@.x == div_v(self@.x, sqrt_v(dot4_v(self@, self@))),
            r@.y == div_v(self@.y, sqrt_v(dot4_v(self@, self@))),
            r@.z == div_v(self@.z, sqrt_v(dot4_v(self@, self@))),
            r@.w == div_v(self@.w, sqrt_v(dot4_v(self@, self@))),
    {
        let len = self.length();
        proof {
            lemma_square_nonneg(self@.x);
            lemma_square_nonneg(self@.y);
            lemma_square_nonneg(self@.z);
            lemma_square_nonneg(self@.w);
            assert(dot4_v(self@, self@) >= 1);
            lemma_sqrt_pos(dot4_v(self@, self@), len@);
        }
        Vec4 { x: self.x.div(len), y: self.y.div(len), z: self.z.div(len), w: self.w.div(len) }
    }

    /// Scales the vector in place to approximately unit length.
    pub fn normalize(&mut self)
        requires
            dot4_fits(old(self)@, old(self)@),
            dot4_v(old(self)@, old(self)@) != 0,
            fits(div_v(old(self)@.x, sqrt_v(dot4_v(old(self)@, old(self)@)))),
            fits(div_v(old(self)@.y, sqrt_v(dot4_v(old(self)@, old(self)@)))),
            fits(div_v(old(self)@.z, sqrt_v(dot4_v(old(self)@, old(self)@)))),
            fits(div_v(old(self)@.w, sqrt_v(dot4_v(old(self)@, old(self)@)))),
        ensures
            final(self)@.x == div_v(old(self)@.x, sqrt_v(dot4_v(old(self)@, old(self)@))),
            final(self)@.y == div_v(old(self)@.y, sqrt_v(dot4_v(old(self)@, old(self)@))),
            final(self)@.z == div_v(old(self)@.z, sqrt_v(dot4_v(old(self)@, old(self)@))),
            final(self)@.w == div_v(old(self)@.w, sqrt_v(dot4_v(old(self)@, old(self)@))),
    {
        let r = self.normalized();
        self.x = r.x;
        self.y = r.y;
        self.z = r.z;
        self.w = r.w;
    }

    pub fn add(self, rhs: Vec4) -> (r: Vec4)
        requires
            fits(self@.x + rhs@.x),
            fits(self@.y + rhs@.y),
            fits(self@.z + rhs@.z),
            fits(self@.w + rhs@.w),
        ensures
            r@ == (Vec4V {
                x: self@.x + rhs@.x,
                y: self@.y + rhs@.y,
                z: self@.z + rhs@.z,
                w: self@.w + rhs@.w,
            }),
    {
        Vec4 {
            x: self.x.add(rhs.x),
            y: self.y.add(rhs.y),
            z: self.z.add(rhs.z),
            w: self.w.add(rhs.w),
        }
    }

    pub fn sub(self, rhs: Vec4) -> (r: Vec4)
        requires
            fits(self@.x - rhs@.x),
            fits(self@.y - rhs@.y),
            fits(self@.z - rhs@.z),
            fits(self@.w - rhs@.w),
        ensures
            r@ == vsub4(self@, rhs@),
    {
        Vec4 {
            x: self.x.sub(rhs.x),
            y: self.y.sub(rhs.y),
            z: self.z.sub(rhs.z),
            w: self.w.sub(rhs.w),
        }
    }

    pub fn neg(self) -> (r: Vec4)
        requires
            fits(-self@.x),
            fits(-self@.y),
            fits(-self@.z),
            fits(-self@.w),
        ensures
            r@ == (Vec4V { x: -self@.x, y: -self@.y, z: -self@.z, w: -self@.w }),
    {
        Vec4 { x: self.x.neg(), y: self.y.neg(), z: self.z.neg(), w: self.w.neg() }
    }

    /// Componentwise product.
    pub fn mul(self, rhs: Vec4) -> (r: Vec4)
        requires
            fits(mul_v(self@.x, rhs@.x)),
            fits(mul_v(self@.y, rhs@.y)),
            fits(mul_v(self@.z, rhs@.z)),
            fits(mul_v(self@.w, rhs@.w)),
        ensures
            r@ == (Vec4V {
                x: mul_v(self@.x, rhs@.x),
                y: mul_v(self@.y, rhs@.y),
                z: mul_v(self@.z, rhs@.z),
                w: mul_v(self@.w, rhs@.w),
            }),
    {
        Vec4 {
            x: self.x.mul(rhs.x),
            y: self.y.mul(rhs.y),
            z: self.z.mul(rhs.z),
            w: self.w.mul(rhs.w),
        }
    }

    /// Product with one scalar.
    pub fn scale(self, rhs: Scalar) -> (r: Vec4)
        requires
            fits(mul_v(self@.x, rhs@)),
            fits(mul_v(self@.y, rhs@)),
            fits(mul_v(self@.z, rhs@)),
            fits(mul_v(self@.w, rhs@)),
        ensures
            r@ == (Vec4V {
                x: mul_v(self@.x, rhs@),
                y: mul_v(self@.y, rhs@),
                z: mul_v(self@.z, rhs@),
                w: mul_v(self@.w, rhs@),
            }),
    {
        Vec4 {
            x: self.x.mul(rhs),
            y: self.y.mul(rhs),
            z: self.z.mul(rhs),
            w: self.w.mul(rhs),
        }
    }

    /// Componentwise quotient.
    pub fn div(self, rhs: Vec4) -> (r: Vec4)
        requires
            rhs@.x != 0,
            rhs@.y != 0,
            rhs@.z != 0,
            rhs@.w != 0,
            fits(div_v(self@.x, rhs@.x)),
            fits(div_v(self@.y, rhs@.y)),
            fits(div_v(self@.z, rhs@.z)),
            fits(div_v(self@.w, rhs@.w)),
        ensures
            r@ == (Vec4V {
                x: div_v(self@.x, rhs@.x),
                y: div_v(self@.y, rhs@.y),
                z: div_v(self@.z, rhs@.z),
                w: div_v(self@.w, rhs@.w),
            }),
    {
        Vec4 {
            x: self.x.div(rhs.x),
            y: self.y.div(rhs.y),
            z: self.z.div(rhs.z),
            w: self.w.div(rhs.w),
        }
    }

    /// Quotient by one scalar.
    pub fn div_scalar(self, rhs: Scalar) -> (r: Vec4)
        requires
            rhs@ != 0,
            fits(div_v(self@.x, rhs@)),
            fits(div_v(self@.y, rhs@)),
            fits(div_v(self@.z, rhs@)),
            fits(div_v(self@.w, rhs@)),
        ensures
            r@ == (Vec4V {
                x: div_v(self@.x, rhs@),
                y: div_v(self@.y, rhs@),
                z: div_v(self@.z, rhs@),
                w: div_v(self@.w, rhs@),
            }),
    {
        Vec4 {
            x: self.x.div(rhs),
            y: self.y.div(rhs),
            z: self.z.div(rhs),
            w: self.w.div(rhs),
        }
    }

    /// Mirrors the direction `i` over the unit normal `n`.
    pub fn reflect(i: Vec4, n: Vec4) -> (r: Vec4)
        requires
            dot4_fits(n@, i@),
            is_unit4_v(n@),
            fits(2 * dot4_v(n@, i@)),
            fits(mul_v(n@.x, 2 * dot4_v(n@, i@))),
            fits(mul_v(n@.y, 2 * dot4_v(n@, i@))),
            fits(mul_v(n@.z, 2 * dot4_v(n@, i@))),
            fits(mul_v(n@.w, 2 * dot4_v(n@, i@))),
            fits(mul_v(n@.x, 2 * dot4_v(n@, i@)) - i@.x),
            fits(mul_v(n@.y, 2 * dot4_v(n@, i@)) - i@.y),
            fits(mul_v(n@.z, 2 * dot4_v(n@, i@)) - i@.z),
            fits(mul_v(n@.w, 2 * dot4_v(n@, i@)) - i@.w),
        ensures
            r@.x == mul_v(n@.x, 2 * dot4_v(n@, i@)) - i@.x,
            r@.y == mul_v(n@.y, 2 * dot4_v(n@, i@)) - i@.y,
            r@.z == mul_v(n@.z, 2 * dot4_v(n@, i@)) - i@.z,
            r@.w == mul_v(n@.w, 2 * dot4_v(n@, i@)) - i@.w,
    {
        let d = n.dot(i);
        let t = d.add(d);
        Vec4 {
            x: n.x.mul(t).sub(i.x),
            y: n.y.mul(t).sub(i.y),
            z: n.z.mul(t).sub(i.z),
            w: n.w.mul(t).sub(i.w),
        }
    }

    /// Bends the direction `i` through a surface with unit normal `n` and
    /// refraction ratio `eta`; a negative discriminant means total internal
    /// reflection and yields the zero vector.
    pub fn refract(i: Vec4, n: Vec4, eta: Scalar) -> (r: Vec4)
        requires
            is_unit4_v(n@),
            refract4_fits(i@, n@, eta@),
        ensures
            refract4_k(i@, n@, eta@) < 0 ==> r@ == (Vec4V { x: 0, y: 0, z: 0, w: 0 }),
            refract4_k(i@, n@, eta@) >= 0 ==> r@.x == mul_v(i@.x, eta@) - mul_v(
                n@.x,
                refract4_f(i@, n@, eta@),
            ),
            refract4_k(i@, n@, eta@) >= 0 ==> r@.y == mul_v(i@.y, eta@) - mul_v(
                n@.y,
                refract4_f(i@, n@, eta@),
            ),
            refract4_k(i@, n@, eta@) >= 0 ==> r@.z == mul_v(i@.z, eta@) - mul_v(
                n@.z,
                refract4_f(i@, n@, eta@),
            ),
            refract4_k(i@, n@, eta@) >= 0 ==> r@.w == mul_v(i@.w, eta@) - mul_v(
                n@.w,
                refract4_f(i@, n@, eta@),
            ),
    {
        let d = n.dot(i);
        let k = Scalar::one().sub(eta.mul(eta).mul(Scalar::one().sub(d.mul(d))));
        if k.raw() < 0 {
            Vec4::zero()
        } else {
            let f = eta.mul(d).add(k.sqrt());
            Vec4 {
                x: i.x.mul(eta).sub(n.x.mul(f)),
                y: i.y.mul(eta).sub(n.y.mul(f)),
                z: i.z.mul(eta).sub(n.z.mul(f)),
                w: i.w.mul(eta).sub(n.w.mul(f)),
            }
        }
    }

    /// Largest component.
    pub fn get_largest(&self) -> (r: Scalar)
        ensures
            r@ == imax(self@.x, imax(self@.y, imax(self@.z, self@.w))),
    {
        self.x.max(self.y.max(self.z.max(self.w)))
    }

    /// Smallest component.
    pub fn get_smallest(&self) -> (r: Scalar)
        ensures
            r@ == imin(self@.x, imin(self@.y, imin(self@.z, self@.w))),
    {
        self.x.min(self.y.min(self.z.min(self.w)))
    }

    /// Index of the last component after the first that exceeds the first,
    /// or 0 when none does (each later component is compared against `x`).
    pub fn get_largest_index(&self) -> (r: usize)
        ensures
            r == if self@.w > self@.x {
                3usize
            } else if self@.z > self@.x {
                2usize
            } else if self@.y > self@.x {
                1usize
            } else {
                0usize
            },
    {
        let mut i: usize = 0;
        let largest: Scalar = self.x;
        if self.y.raw() > largest.raw() {
            i = 1;
        }
        if self.z.raw() > largest.raw() {
            i = 2;
        }
        if self.w.raw() > largest.raw() {
            i = 3;
        }
        i
    }

    /// Index of the last component after the first that undercuts the first,
    /// or 0 when none does (each later component is compared against `x`).
    pub fn get_smallest_index(&self) -> (r: usize)
        ensures
            r == if self@.w < self@.x {
                3usize
            } else if self@.z < self@.x {
                2usize
            } else if self@.y < self@.x {
                1usize
            } else {
                0usize
            },
    {
        let mut i: usize = 0;
        let smallest: Scalar = self.x;
        if self.y.raw() < smallest.raw() {
            i = 1;
        }
        if self.z.raw() < smallest.raw() {
            i = 2;
        }
        if self.w.raw() < smallest.raw() {
            i = 3;
        }
        i
    }

    /// Length of the difference of the two vectors.
    pub fn distance(a: Vec4, b: Vec4) -> (r: Scalar)
        requires
            fits(b@.x - a@.x),
            fits(b@.y - a@.y),
            fits(b@.z - a@.z),
            fits(b@.w - a@.w),
            dot4_fits(vsub4(b@, a@), vsub4(b@, a@)),
        ensures
            r@ == sqrt_v(dot4_v(vsub4(b@, a@), vsub4(b@, a@))),
    {
        b.sub(a).length()
    }

    /// Componentwise blend `(b - a) * (1 - t)`.
    pub fn mix(a: Vec4, b: Vec4, t: Vec4) -> (r: Vec4)
        requires
            fits(b@.x - a@.x),
            fits(b@.y - a@.y),
            fits(b@.z - a@.z),
            fits(b@.w - a@.w),
            fits(SCALE - t@.x),
            fits(SCALE - t@.y),
            fits(SCALE - t@.z),
            fits(SCALE - t@.w),
            fits(mul_v(b@.x - a@.x, SCALE - t@.x)),
            fits(mul_v(b@.y - a@.y, SCALE - t@.y)),
            fits(mul_v(b@.z - a@.z, SCALE - t@.z)),
            fits(mul_v(b@.w - a@.w, SCALE - t@.w)),
        ensures
            r@.x == mul_v(b@.x - a@.x, SCALE - t@.x),
            r@.y == mul_v(b@.y - a@.y, SCALE - t@.y),
            r@.z == mul_v(b@.z - a@.z, SCALE - t@.z),
            r@.w == mul_v(b@.w - a@.w, SCALE - t@.w),
    {
        let d = b.sub(a);
        let u = Vec4::one().sub(t);
        d.mul(u)
    }

    /// Blend `(b - a) * (1 - t)` with one scalar weight.
    pub fn mix_all(a: Vec4, b: Vec4, t: Scalar) -> (r: Vec4)
        requires
            fits(b@.x - a@.x),
            fits(b@.y - a@.y),
            fits(b@.z - a@.z),
            fits(b@.w - a@.w),
            fits(SCALE - t@),
            fits(mul_v(b@.x - a@.x, SCALE - t@)),
            fits(mul_v(b@.y - a@.y, SCALE - t@)),
            fits(mul_v(b@.z - a@.z, SCALE - t@)),
            fits(mul_v(b@.w - a@.w, SCALE - t@)),
        ensures
            r@.x == mul_v(b@.x - a@.x, SCALE - t@),
            r@.y == mul_v(b@.y - a@.y, SCALE - t@),
            r@.z == mul_v(b@.z - a@.z, SCALE - t@),
            r@.w == mul_v(b@.w - a@.w, SCALE - t@),
    {
        let d = b.sub(a);
        let u = Scalar::one().sub(t);
        d.scale(u)
    }

    /// Componentwise clamp into `[min, max]`.
    pub fn clamp(a: Vec4, min: Vec4, max: Vec4) -> (r: Vec4)
        ensures
            r@.x == iclamp(a@.x, min@.x, max@.x),
            r@.y == iclamp(a@.y, min@.y, max@.y),
            r@.z == iclamp(a@.z, min@.z, max@.z),
            r@.w == iclamp(a@.w, min@.w, max@.w),
    {
        Vec4 {
            x: clamp_scalar(a.x, min.x, max.x),
            y: clamp_scalar(a.y, min.y, max.y),
            z: clamp_scalar(a.z, min.z, max.z),
            w: clamp_scalar(a.w, min.w, max.w),
        }
    }

    /// Componentwise clamp into one scalar interval.
    pub fn clamp_all(a: Vec4, min: Scalar, max: Scalar) -> (r: Vec4)
        ensures
            r@.x == iclamp(a@.x, min@, max@),
            r@.y == iclamp(a@.y, min@, max@),
            r@.z == iclamp(a@.z, min@, max@),
            r@.w == iclamp(a@.w, min@, max@),
    {
        Vec4 {
            x: clamp_scalar(a.x, min, max),
            y: clamp_scalar(a.y, min, max),
            z: clamp_scalar(a.z, min, max),
            w: clamp_scalar(a.w, min, max),
        }
    }
}

} // verus!
