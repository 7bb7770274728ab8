//! Three-component vectors of fixed-point scalars.

use vstd::prelude::*;
use crate::scalar::Scalar;
use crate::scalar::DEF_EPSILON_RAW;
use crate::scalar::SCALE;
use crate::scalar::approx_eq_v;
use crate::scalar::div_v;
use crate::scalar::fits;
use crate::scalar::imax;
use crate::scalar::imin;
use crate::scalar::lemma_sqrt_pos;
use crate::scalar::lemma_square_nonneg;
use crate::scalar::mul_v;
use crate::scalar::sqrt_v;
use crate::vec2::iclamp;
use crate::vec2::clamp_scalar;

verus! {

/// Mathematical model of a `Vec3`: its three raw component values.
pub ghost struct Vec3V {
    pub x: int,
    pub y: int,
    pub z: int,
}

/// Raw dot product of two modelled vectors.
pub open spec fn dot3_v(a: Vec3V, b: Vec3V) -> int {
    mul_v(a.x, b.x) + mul_v(a.y, b.y) + mul_v(a.z, b.z)
}

/// All intermediates of `dot3_v` are representable.
pub open spec fn dot3_fits(a: Vec3V, b: Vec3V) -> bool {
    fits(mul_v(a.x, b.x)) && fits(mul_v(a.y, b.y)) && fits(mul_v(a.z, b.z)) && fits(
        mul_v(a.x, b.x) + mul_v(a.y, b.y),
    ) && fits(dot3_v(a, b))
}

/// Raw cross product of two modelled vectors.
pub open spec fn cross3_v(a: Vec3V, b: Vec3V) -> Vec3V {
    Vec3V {
        x: mul_v(a.y, b.z) - mul_v(a.z, b.y),
        y: mul_v(a.z, b.x) - mul_v(a.x, b.z),
        z: mul_v(a.x, b.y) - mul_v(a.y, b.x),
    }
}

/// All intermediates of `cross3_v` are representable.
pub open spec fn cross3_fits(a: Vec3V, b: Vec3V) -> bool {
    fits(mul_v(a.y, b.z)) && fits(mul_v(a.z, b.y)) && fits(mul_v(a.z, b.x)) && fits(
        mul_v(a.x, b.z),
    ) && fits(mul_v(a.x, b.y)) && fits(mul_v(a.y, b.x)) && fits(cross3_v(a, b).x) && fits(
        cross3_v(a, b).y,
    ) && fits(cross3_v(a, b).z)
}

/// Model of normalization: each component divided by the length.
pub open spec fn normalized3_v(a: Vec3V) -> Vec3V {
    let len = sqrt_v(dot3_v(a, a));
    Vec3V { x: div_v(a.x, len), y: div_v(a.y, len), z: div_v(a.z, len) }
}

/// Componentwise difference of two modelled vectors.
pub open spec fn vsub3(a: Vec3V, b: Vec3V) -> Vec3V {
    Vec3V { x: a.x - b.x, y: a.y - b.y, z: a.z - b.z }
}

/// Whether the modelled vector has length approximately one.
pub open spec fn is_unit3_v(a: Vec3V) -> bool {
    approx_eq_v(dot3_v(a, a), SCALE as int, DEF_EPSILON_RAW as int)
}

/// Discriminant of the refraction formula: `1 - eta^2 * (1 - dot(n, i)^2)`.
pub open spec fn refract3_k(i: Vec3V, n: Vec3V, eta: int) -> int {
    SCALE - mul_v(mul_v(eta, eta), SCALE - mul_v(dot3_v(n, i), dot3_v(n, i)))
}

/// Factor applied to the normal by the refraction formula.
pub open spec fn refract3_f(i: Vec3V, n: Vec3V, eta: int) -> int {
    mul_v(eta, dot3_v(n, i)) + sqrt_v(refract3_k(i, n, eta))
}

/// All intermediates of `refract` are representable.
pub open spec fn refract3_fits(i: Vec3V, n: Vec3V, eta: int) -> bool {
    let d = dot3_v(n, i);
    let f = refract3_f(i, n, eta);
    dot3_fits(n, i) && fits(mul_v(eta, eta)) && fits(mul_v(d, d)) && fits(SCALE - mul_v(d, d))
        && fits(mul_v(mul_v(eta, eta), SCALE - mul_v(d, d))) && fits(refract3_k(i, n, eta)) && fits(
        mul_v(eta, d),
    ) && fits(f) && fits(mul_v(i.x, eta)) && fits(mul_v(i.y, eta)) && fits(mul_v(i.z, eta)) && fits(
        mul_v(n.x, f),
    ) && fits(mul_v(n.y, f)) && fits(mul_v(n.z, f)) && fits(mul_v(i.x, eta) - mul_v(n.x, f)) && fits(
        mul_v(i.y, eta) - mul_v(n.y, f),
    ) && fits(mul_v(i.z, eta) - mul_v(n.z, f))
}

/// A three-component vector, in `x`, `y`, `z` order.
#[derive(Clone, Copy, Debug, PartialEq, Eq, Structural)]
pub struct Vec3 {
    pub x: Scalar,
    pub y: Scalar,
    pub z: Scalar,
}

impl View for Vec3 {
    type V = Vec3V;

    open spec fn view(&self) -> Vec3V {
        Vec3V { x: self.x@, y: self.y@, z: self.z@ }
    }
}

impl Vec3 {
    pub fn zero() -> (r: Vec3)
        ensures
            r@ == (Vec3V { x: 0, y: 0, z: 0 }),
    {
        Vec3 { x: Scalar::zero(), y: Scalar::zero(), z: Scalar::zero() }
    }

    pub fn one() -> (r: Vec3)
        ensures
            r@ == (Vec3V { x: SCALE as int, y: SCALE as int, z: SCALE as int }),
    {
        Vec3 { x: Scalar::one(), y: Scalar::one(), z: Scalar::one() }
    }

    /// The unit vector along the positive x axis.
    pub fn right() -> (r: Vec3)
        ensures
            r@ == (Vec3V { x: SCALE as int, y: 0, z: 0 }),
    {
        Vec3 { x: Scalar::one(), y: Scalar::zero(), z: Scalar::zero() }
    }

    /// The unit vector along the positive y axis.
    pub fn up() -> (r: Vec3)
        ensures
            r@ == (Vec3V { x: 0, y: SCALE as int, z: 0 }),
    {
        Vec3 { x: Scalar::zero(), y: Scalar::one(), z: Scalar::zero() }
    }

    /// The unit vector along the positive z axis.
    pub fn forward() -> (r: Vec3)
        ensures
            r@ == (Vec3V { x: 0, y: 0, z: SCALE as int }),
    {
        Vec3 { x: Scalar::zero(), y: Scalar::zero(), z: Scalar::one() }
    }

    pub fn new(x: Scalar, y: Scalar, z: Scalar) -> (r: Vec3)
        ensures
            r@ == (Vec3V { x: x@, y: y@, z: z@ }),
    {
        Vec3 { x, y, z }
    }

    /// The vector with all three components equal to `t`.
    pub fn all(t: Scalar) -> (r: Vec3)
        ensures
            r@ == (Vec3V { x: t@, y: t@, z: t@ }),
    {
        Vec3 { x: t, y: t, z: t }
    }

    pub fn dot(self, rhs: Vec3) -> (r: Scalar)
        requires
            dot3_fits(self@, rhs@),
        ensures
            r@ == dot3_v(self@, rhs@),
    {
        self.x.mul(rhs.x).add(self.y.mul(rhs.y)).add(self.z.mul(rhs.z))
    }

    pub fn cross(self, rhs: Vec3) -> (r: Vec3)
        requires
            cross3_fits(self@, rhs@),
        ensures
            r@ == cross3_v(self@, rhs@),
    {
        Vec3 {
            x: self.y.mul(rhs.z).sub(self.z.mul(rhs.y)),
            y: self.z.mul(rhs.x).sub(self.x.mul(rhs.z)),
            z: self.x.mul(rhs.y).sub(self.y.mul(rhs.x)),
        }
    }

    pub fn length_squared(self) -> (r: Scalar)
        requires
            dot3_fits(self@, self@),
        ensures
            r@ == dot3_v(self@, self@),
    {
        self.dot(self)
    }

    pub fn length(self) -> (r: Scalar)
        requires
            dot3_fits(self@, self@),
        ensures
            r@ == sqrt_v(dot3_v(self@, self@)),
            crate::scalar::is_sqrt(dot3_v(self@, self@), r@),
    {
        proof {
            lemma_square_nonneg(self@.x);
            lemma_square_nonneg(self@.y);
            lemma_square_nonneg(self@.z);
        }
        self.length_squared().sqrt()
    }

    /// Whether the squared length is approximately one.
    pub fn is_unit(&self) -> (r: bool)
        requires
            dot3_fits(self@, self@),
        ensures
            r == is_unit3_v(self@),
    {
        self.length_squared().approx_eq_def(Scalar::one())
    }

    pub fn size() -> (r: usize)
        ensures
            r == 3usize,
    {
        3
    }

    /// The vector scaled to approximately unit length by dividing each
    /// component by the length.
    pub fn normalized(&self) -> (r: Vec3)
        requires
            dot3_fits(self@, self@),
            dot3_v(self@, self@) != 0,
            fits(div_v(self@.x, sqrt_v(dot3_v(self@, self@)))),
            fits(div_v(self@.y, sqrt_v(dot3_v(self@, self@)))),
            fits(div_v(self@.z, sqrt_v(dot3_v(self@, self@)))),
        ensures
            r@.x == div_v(self@.x, sqrt_v(dot3_v(self@, self@))),
            r@.y == div_v(self@.y, sqrt_v(dot3_v(self@, self@))),
            r@.z == div_v(self@.z, sqrt_v(dot3_v(self@, self@))),
    {
        let len = self.length();
        proof {
            lemma_square_nonneg(self@.x);
            lemma_square_nonneg(self@.y);
            lemma_square_nonneg(self@.z);
            assert(dot3_v(self@, self@) >= 1);
            lemma_sqrt_pos(dot3_v(self@, self@), len@);
        }
        Vec3 { x: self.x.div(len), y: self.y.div(len), z: self.z.div(len) }
    }

    /// Scales the vector in place to approximately unit length.
    pub fn normalize(&mut self)
        requires
            dot3_fits(old(self)@, old(self)@),
            dot3_v(old(self)@, old(self)@) != 0,
            fits(div_v(old(self)@.x, sqrt_v(dot3_v(old(self)@, old(self)@)))),
            fits(div_v(old(self)@.y, sqrt_v(dot3_v(old(self)@, old(self)@)))),
            fits(div_v(old(self)@.z, sqrt_v(dot3_v(old(self)@, old(self)@)))),
        ensures
            final(self)@.x == div_v(old(self)@.x, sqrt_v(dot3_v(old(self)@, old(self)@))),
            final(self)@.y == div_v(old(self)@.y, sqrt_v(dot3_v(old(self)@, old(self)@))),
            final(self)@.z == div_v(old(self)@.z, sqrt_v(dot3_v(old(self)@, old(self)@))),
    {
        let r = self.normalized();
        self.x = r.x;
        self.y = r.y;
        self.z = r.z;
    }

    pub fn add(self, rhs: Vec3) -> (r: Vec3)
        requires
            fits(self@.x + rhs@.x),
            fits(self@.y + rhs@.y),
            fits(self@.z + rhs@.z),
        ensures
            r@ == (Vec3V { x: self@.x + rhs@.x, y: self@.y + rhs@.y, z: self@.z + rhs@.z }),
    {
        Vec3 { x: self.x.add(rhs.x), y: self.y.add(rhs.y), z: self.z.add(rhs.z) }
    }

    pub fn sub(self, rhs: Vec3) -> (r: Vec3)
        requires
            fits(self@.x - rhs@.x),
            fits(self@.y - rhs@.y),
            fits(self@.z - rhs@.z),
        ensures
            r@ == vsub3(self@, rhs@),
    {
        Vec3 { x: self.x.sub(rhs.x), y: self.y.sub(rhs.y), z: self.z.sub(rhs.z) }
    }

    pub fn neg(self) -> (r: Vec3)
        requires
            fits(-self@.x),
            fits(-self@.y),
            fits(-self@.z),
        ensures
            r@ == (Vec3V { x: -self@.x, y: -self@.y, z: -self@.z }),
    {
        Vec3 { x: self.x.neg(), y: self.y.neg(), z: self.z.neg() }
    }

    /// Componentwise product.
    pub fn mul(self, rhs: Vec3) -> (r: Vec3)
        requires
            fits(mul_v(self@.x, rhs@.x)),
            fits(mul_v(self@.y, rhs@.y)),
            fits(mul_v(self@.z, rhs@.z)),
        ensures
            r@ == (Vec3V {
                x: mul_v(self@.x, rhs@.x),
                y: mul_v(self@.y, rhs@.y),
                z: mul_v(self@.z, rhs@.z),
            }),
    {
        Vec3 { x: self.x.mul(rhs.x), y: self.y.mul(rhs.y), z: self.z.mul(rhs.z) }
    }

    /// Product with one scalar.
    pub fn scale(self, rhs: Scalar) -> (r: Vec3)
        requires
            fits(mul_v(self@.x, rhs@)),
            fits(mul_v(self@.y, rhs@)),
            fits(mul_v(self@.z, rhs@)),
        ensures
            r@ == (Vec3V {
                x: mul_v(self@.x, rhs@),
                y: mul_v(self@.y, rhs@),
                z: mul_v(self@.z, rhs@),
            }),
    {
        Vec3 { x: self.x.mul(rhs), y: self.y.mul(rhs), z: self.z.mul(rhs) }
    }

    /// Componentwise quotient.
    pub fn div(self, rhs: Vec3) -> (r: Vec3)
        requires
            rhs@.x != 0,
            rhs@.y != 0,
            rhs@.z != 0,
            fits(div_v(self@.x, rhs@.x)),
            fits(div_v(self@.y, rhs@.y)),
            fits(div_v(self@.z, rhs@.z)),
        ensures
            r@ == (Vec3V {
                x: div_v(self@.x, rhs@.x),
                y: div_v(self@.y, rhs@.y),
                z: div_v(self@.z, rhs@.z),
            }),
    {
        Vec3 { x: self.x.div(rhs.x), y: self.y.div(rhs.y), z: self.z.div(rhs.z) }
    }

    /// Quotient by one scalar.
    pub fn div_scalar(self, rhs: Scalar) -> (r: Vec3)
        requires
            rhs@ != 0,
            fits(div_v(self@.x, rhs@)),
            fits(div_v(self@.y, rhs@)),
            fits(div_v(self@.z, rhs@)),
        ensures
            r@ == (Vec3V {
                x: div_v(self@.x, rhs@),
                y: div_v(self@.y, rhs@),
                z: div_v(self@.z, rhs@),
            }),
    {
        Vec3 { x: self.x.div(rhs), y: self.y.div(rhs), z: self.z.div(rhs) }
    }

    /// Mirrors the direction `i` over the unit normal `n`.
    pub fn reflect(i: Vec3, n: Vec3) -> (r: Vec3)
        requires
            dot3_fits(n@, i@),
            is_unit3_v(n@),
            fits(2 * dot3_v(n@, i@)),
            fits(mul_v(n@.x, 2 * dot3_v(n@, i@))),
            fits(mul_v(n@.y, 2 * dot3_v(n@, i@))),
            fits(mul_v(n@.z, 2 * dot3_v(n@, i@))),
            fits(mul_v(n@.x, 2 * dot3_v(n@, i@)) - i@.x),
            fits(mul_v(n@.y, 2 * dot3_v(n@, i@)) - i@.y),
            fits(mul_v(n@.z, 2 * dot3_v(n@, i@)) - i@.z),
        ensures
            r@.x == mul_v(n@.x, 2 * dot3_v(n@, i@)) - i@.x,
            r@.y == mul_v(n@.y, 2 * dot3_v(n@, i@)) - i@.y,
            r@.z == mul_v(n@.z, 2 * dot3_v(n@, i@)) - i@.z,
    {
        let d = n.dot(i);
        let t = d.add(d);
        Vec3 {
            x: n.x.mul(t).sub(i.x),
            y: n.y.mul(t).sub(i.y),
            z: n.z.mul(t).sub(i.z),
        }
    }

    /// Bends the direction `i` through a surface with unit normal `n` and
    /// refraction ratio `eta`; a negative discriminant means total internal
    /// reflection and yields the zero vector.
    pub fn refract(i: Vec3, n: Vec3, eta: Scalar) -> (r: Vec3)
        requires
            is_unit3_v(n@),
            refract3_fits(i@, n@, eta@),
        ensures
            refract3_k(i@, n@, eta@) < 0 ==> r@ == (Vec3V { x: 0, y: 0, z: 0 }),
            refract3_k(i@, n@, eta@) >= 0 ==> r@.x == mul_v(i@.x, eta@) - mul_v(
                n@.x,
                refract3_f(i@, n@, eta@),
            ),
            refract3_k(i@, n@, eta@) >= 0 ==> r@.y == mul_v(i@.y, eta@) - mul_v(
                n@.y,
                refract3_f(i@, n@, eta@),
            ),
            refract3_k(i@, n@, eta@) >= 0 ==> r@.z == mul_v(i@.z, eta@) - mul_v(
                n@.z,
                refract3_f(i@, n@, eta@),
            ),
    {
        let d = n.dot(i);
        let k = Scalar::one().sub(eta.mul(eta).mul(Scalar::one().sub(d.mul(d))));
        if k.raw() < 0 {
            Vec3::zero()
        } else {
            let f = eta.mul(d).add(k.sqrt());
            Vec3 {
                x: i.x.mul(eta).sub(n.x.mul(f)),
                y: i.y.mul(eta).sub(n.y.mul(f)),
                z: i.z.mul(eta).sub(n.z.mul(f)),
            }
        }
    }

    /// Largest component.
    pub fn get_largest(&self) -> (r: Scalar)
        ensures
            r@ == imax(self@.x, imax(self@.y, self@.z)),
    {
        self.x.max(self.y.max(self.z))
    }

    /// Smallest component.
    pub fn get_smallest(&self) -> (r: Scalar)
        ensures
            r@ == imin(self@.x, imin(self@.y, self@.z)),
    {
        self.x.min(self.y.min(self.z))
    }

    /// Index of the largest component, preferring the earlier on ties.
    pub fn get_largest_index(&self) -> (r: usize)
        ensures
            r == if self@.z > imax(self@.x, self@.y) {
                2usize
            } else if self@.y > self@.x {
                1usize
            } else {
                0usize
            },
    {
        let mut i: usize = 0;
        let mut largest: Scalar = self.x;
        if self.y.raw() > largest.raw() {
            i = 1;
            largest = self.y;
        }
        if self.z.raw() > largest.raw() {
            i = 2;
        }
        i
    }

    /// Index of the smallest component, preferring the earlier on ties.
    pub fn get_smallest_index(&self) -> (r: usize)
        ensures
            r == if self@.z < imin(self@.x, self@.y) {
                2usize
            } else if self@.y < self@.x {
                1usize
            } else {
                0usize
            },
    {
        let mut i: usize = 0;
        let mut smallest: Scalar = self.x;
        if self.y.raw() < smallest.raw() {
            i = 1;
            smallest = self.y;
        }
        if self.z.raw() < smallest.raw() {
            i = 2;
        }
        i
    }

    /// Length of the difference of the two vectors.
    pub fn distance(a: Vec3, b: Vec3) -> (r: Scalar)
        requires
            fits(b@.x - a@.x),
            fits(b@.y - a@.y),
            fits(b@.z - a@.z),
            dot3_fits(vsub3(b@, a@), vsub3(b@, a@)),
        ensures
            r@ == sqrt_v(dot3_v(vsub3(b@, a@), vsub3(b@, a@))),
    {
        b.sub(a).length()
    }

    /// Componentwise blend `(b - a) * (1 - t)`.
    pub fn mix(a: Vec3, b: Vec3, t: Vec3) -> (r: Vec3)
        requires
            fits(b@.x - a@.x),
            fits(b@.y - a@.y),
            fits(b@.z - a@.z),
            fits(SCALE - t@.x),
            fits(SCALE - t@.y),
            fits(SCALE - t@.z),
            fits(mul_v(b@.x - a@.x, SCALE - t@.x)),
            fits(mul_v(b@.y - a@.y, SCALE - t@.y)),
            fits(mul_v(b@.z - a@.z, SCALE - t@.z)),
        ensures
            r@.x == mul_v(b@.x - a@.x, SCALE - t@.x),
            r@.y == mul_v(b@.y - a@.y, SCALE - t@.y),
            r@.z == mul_v(b@.z - a@.z, SCALE - t@.z),
    {
        let d = b.sub(a);
        let u = Vec3::one().sub(t);
        d.mul(u)
    }

    /// Blend `(b - a) * (1 - t)` with one scalar weight.
    pub fn mix_all(a: Vec3, b: Vec3, t: Scalar) -> (r: Vec3)
        requires
            fits(b@.x - a@.x),
            fits(b@.y - a@.y),
            fits(b@.z - a@.z),
            fits(SCALE - t@),
            fits(mul_v(b@.x - a@.x, SCALE - t@)),
            fits(mul_v(b@.y - a@.y, SCALE - t@)),
            fits(mul_v(b@.z - a@.z, SCALE - t@)),
        ensures
            r@.x == mul_v(b@.x - a@.x, SCALE - t@),
            r@.y == mul_v(b@.y - a@.y, SCALE - t@),
            r@.z == mul_v(b@.z - a@.z, SCALE - t@),
    {
        let d = b.sub(a);
        let u = Scalar::one().sub(t);
        d.scale(u)
    }

    /// Componentwise clamp into `[min, max]`.
    pub fn clamp(a: Vec3, min: Vec3, max: Vec3) -> (r: Vec3)
        ensures
            r@.x == iclamp(a@.x, min@.x, max@.x),
            r@.y == iclamp(a@.y, min@.y, max@.y),
            r@.z == iclamp(a@.z, min@.z, max@.z),
    {
        Vec3 {
            x: clamp_scalar(a.x, min.x, max.x),
            y: clamp_scalar(a.y, min.y, max.y),
            z: clamp_scalar(a.z, min.z, max.z),
        }
    }

    /// Componentwise clamp into one scalar interval.
    pub fn clamp_all(a: Vec3, min: Scalar, max: Scalar) -> (r: Vec3)
        ensures
            r@.x == iclamp(a@.x, min@, max@),
            r@.y == iclamp(a@.y, min@, max@),
            r@.z == iclamp(a@.z, min@, max@),
    {
        Vec3 {
            x: clamp_scalar(a.x, min, max),
            y: clamp_scalar(a.y, min, max),
            z: clamp_scalar(a.z, min, max),
        }
    }
}

} // verus!
