//! The scalar type of the library: a signed fixed-point number with 32
//! fractional bits, stored in an `i64`.
//!
//! Every arithmetic operation states exactly which integer its result holds,
//! in terms of the raw (scaled) representation: a scalar whose raw value is
//! `b` stands for the real number `b / 4294967296`.  Products and quotients
//! round toward zero, as the contracts state.

use vstd::prelude::*;
use vstd::arithmetic::div_mod::lemma_div_is_ordered;
use vstd::arithmetic::div_mod::lemma_div_is_ordered_by_denominator;
use vstd::arithmetic::div_mod::lemma_fundamental_div_mod;
use vstd::arithmetic::div_mod::lemma_mod_bound;
use vstd::arithmetic::div_mod::lemma_div_multiples_vanish;
use vstd::arithmetic::div_mod::lemma_div_pos_is_pos;
use vstd::arithmetic::mul::lemma_mul_upper_bound;

verus! {

/// Raw representation of 1: the scale factor, 2^32.
pub const SCALE: i64 = 4294967296;

/// Default tolerance used by the approximate comparisons: 1e-5, in raw units.
pub const DEF_EPSILON_RAW: i64 = 42950;

/// Absolute value of a mathematical integer.
pub open spec fn iabs(x: int) -> int {
    if x >= 0 {
        x
    } else {
        -x
    }
}

/// Smaller of two mathematical integers.
pub open spec fn imin(a: int, b: int) -> int {
    if a <= b {
        a
    } else {
        b
    }
}

/// Larger of two mathematical integers.
pub open spec fn imax(a: int, b: int) -> int {
    if a >= b {
        a
    } else {
        b
    }
}

/// Division of mathematical integers that rounds toward zero, as machine
/// division of raw values does.  `q` must not be zero.
pub open spec fn tdiv(p: int, q: int) -> int {
    if (p >= 0) == (q >= 0) {
        iabs(p) / iabs(q)
    } else {
        -(iabs(p) / iabs(q))
    }
}

/// Raw value of the product of two scalars with raw values `a` and `b`.
pub open spec fn mul_v(a: int, b: int) -> int {
    tdiv(a * b, SCALE as int)
}

/// Raw value of the quotient of two scalars with raw values `a` and `b`.
pub open spec fn div_v(a: int, b: int) -> int {
    tdiv(a * (SCALE as int), b)
}

/// Whether a mathematical integer is representable as a raw value.
pub open spec fn fits(x: int) -> bool {
    i64::MIN <= x <= i64::MAX
}

/// Raw value of the factor that converts degrees to radians (pi / 180).
pub const DEG_TO_RAD_RAW: i64 = 74961321;

/// Raw value of the factor that converts radians to degrees (180 / pi).
pub const RAD_TO_DEG_RAW: i64 = 246083499208;

/// Whether `r` is the integer square root of `x` scaled up by 2^32, so that
/// as a raw value `r` stands for the square root of the scalar `x` stands for.
pub open spec fn is_sqrt(x: int, r: int) -> bool {
    0 <= r && r * r <= x * (SCALE as int) && x * (SCALE as int) < (r + 1) * (r + 1)
}

/// The raw square root of the scalar with raw value `x` (meaningful for
/// `x >= 0`): the unique `r` with `is_sqrt(x, r)`.
pub open spec fn sqrt_v(x: int) -> int {
    choose|r: int| is_sqrt(x, r)
}

/// Approximate equality of raw values `a` and `b` within tolerance `e`:
/// exact equality, or, when one side is zero, an absolute difference below
/// `e`, and otherwise a difference relative to the sum of magnitudes below
/// `e`.
pub open spec fn approx_eq_v(a: int, b: int, e: int) -> bool {
    if a == b {
        true
    } else if a == 0 || b == 0 {
        iabs(a - b) < e
    } else {
        div_v(iabs(a - b), imin(iabs(a) + iabs(b), i64::MAX as int)) < e
    }
}

/// The fixed-point scalar: 32 integer bits, 32 fractional bits.
#[derive(Clone, Copy, Debug, PartialEq, Eq, Structural)]
pub struct Scalar {
    pub bits: i64,
}

impl View for Scalar {
    type V = int;

    open spec fn view(&self) -> int {
        self.bits as int
    }
}

/// |a * b| == |a| * |b|, and the product is negative exactly when the signs
/// of the (nonzero) factors differ.
pub proof fn lemma_abs_mul(a: int, b: int)
    by (nonlinear_arith)
    ensures
        iabs(a * b) == iabs(a) * iabs(b),
        (a * b >= 0) <==> (a >= 0 && b >= 0) || (a <= 0 && b <= 0),
        (a * b == 0) <==> (a == 0 || b == 0),
{
}

/// The magnitude of a truncating product of raw values is the floor of
/// |a|*|b| / SCALE; bounding the factors therefore bounds the product.
pub proof fn lemma_mul_v_bound(a: int, b: int, ba: int, bb: int, c: int)
    requires
        iabs(a) <= ba,
        iabs(b) <= bb,
        ba * bb <= c * (SCALE as int),
        0 <= c,
    ensures
        iabs(mul_v(a, b)) <= c,
        fits(mul_v(a, b)) || c > i64::MAX,
{
    lemma_abs_mul(a, b);
    lemma_mul_upper_bound(iabs(a), ba, iabs(b), bb);
    lemma_div_is_ordered(iabs(a * b), ba * bb, SCALE as int);
    lemma_div_multiples_vanish(c, SCALE as int);
    lemma_div_pos_is_pos(iabs(a * b), SCALE as int);
}

/// The truncating product of a raw value with itself is never negative.
pub proof fn lemma_square_nonneg(x: int)
    ensures
        mul_v(x, x) >= 0,
{
    lemma_abs_mul(x, x);
    lemma_div_pos_is_pos(iabs(x * x), SCALE as int);
}

/// Multiplying a raw value by the raw one is exact.
pub proof fn lemma_mul_v_one(x: int)
    ensures
        mul_v(x, SCALE as int) == x,
        mul_v(SCALE as int, x) == x,
{
    lemma_abs_mul(x, SCALE as int);
    lemma_abs_mul(SCALE as int, x);
    lemma_div_multiples_vanish(iabs(x), SCALE as int);
    assert(iabs(x) * (SCALE as int) == (SCALE as int) * iabs(x)) by (nonlinear_arith);
}

/// Multiplying any raw value by zero gives zero.
pub proof fn lemma_mul_v_zero(x: int)
    ensures
        mul_v(x, 0) == 0,
        mul_v(0, x) == 0,
{
    lemma_abs_mul(x, 0);
    lemma_abs_mul(0, x);
}

/// Negating one factor of a truncating raw product negates the product
/// exactly.
pub proof fn lemma_mul_v_neg(a: int, b: int)
    ensures
        mul_v(a, -b) == -mul_v(a, b),
        mul_v(-a, b) == -mul_v(a, b),
{
    lemma_abs_mul(a, b);
    lemma_abs_mul(a, -b);
    lemma_abs_mul(-a, b);
    vstd::arithmetic::mul::lemma_mul_unary_negation(a, b);
    assert((-a) * b == -(a * b)) by (nonlinear_arith);
}

/// A truncating quotient by the scale differs from the exact quotient by
/// less than one scale unit.
pub proof fn lemma_tdiv_error(p: int)
    ensures
        iabs(tdiv(p, SCALE as int) * (SCALE as int) - p) < SCALE,
{
    lemma_fundamental_div_mod(iabs(p), SCALE as int);
    lemma_mod_bound(iabs(p), SCALE as int);
    assert((iabs(p) / (SCALE as int)) * (SCALE as int) == (SCALE as int) * (iabs(p) / (
    SCALE as int))) by (nonlinear_arith);
}

/// A truncating quotient by any nonzero divisor differs from the exact
/// quotient by less than one, after scaling back by the divisor.
pub proof fn lemma_tdiv_error_gen(p: int, q: int)
    requires
        q != 0,
    ensures
        iabs(tdiv(p, q) * q - p) < iabs(q),
{
    lemma_fundamental_div_mod(iabs(p), iabs(q));
    lemma_mod_bound(iabs(p), iabs(q));
    assert(iabs(tdiv(p, q) * q - p) < iabs(q)) by (nonlinear_arith)
        requires
            q != 0,
            iabs(p) == iabs(q) * (iabs(p) / iabs(q)) + iabs(p) % iabs(q),
            0 <= iabs(p) % iabs(q) < iabs(q),
            tdiv(p, q) == if (p >= 0) == (q >= 0) {
                iabs(p) / iabs(q)
            } else {
                -(iabs(p) / iabs(q))
            },
            iabs(p) == if p >= 0 {
                p
            } else {
                -p
            },
            iabs(q) == if q >= 0 {
                q
            } else {
                -q
            },
    ;
}

/// The truncating raw product does not depend on the order of its factors.
pub proof fn lemma_mul_v_comm(a: int, b: int)
    ensures
        mul_v(a, b) == mul_v(b, a),
{
    assert(a * b == b * a) by (nonlinear_arith);
}

/// A quotient of nonnegative integers is bounded by any `c` with
/// `p <= c * d`.
pub proof fn lemma_div_le(p: int, d: int, c: int)
    requires
        0 <= p,
        0 < d,
        p <= c * d,
    ensures
        0 <= p / d <= c,
{
    vstd::arithmetic::mul::lemma_mul_is_commutative(c, d);
    lemma_div_multiples_vanish(c, d);
    lemma_div_is_ordered(p, c * d, d);
    lemma_div_pos_is_pos(p, d);
}

/// A truncating raw quotient is bounded once the numerator is bounded above
/// and the denominator below.
pub proof fn lemma_div_v_bound(a: int, b: int, ba: int, bl: int, c: int)
    requires
        iabs(a) <= ba,
        0 < bl <= iabs(b),
        ba * (SCALE as int) <= c * bl,
        0 <= c,
    ensures
        iabs(div_v(a, b)) <= c,
{
    lemma_abs_mul(a, SCALE as int);
    lemma_div_pos_is_pos(iabs(a * (SCALE as int)), iabs(b));
    lemma_div_is_ordered_by_denominator(iabs(a) * (SCALE as int), bl, iabs(b));
    lemma_div_is_ordered(iabs(a) * (SCALE as int), ba * (SCALE as int), bl);
    lemma_div_le(ba * (SCALE as int), bl, c);
}

/// Dividing a component by the raw square root of any upper bound on its
/// squared value stays within a fixed representable bound.
pub proof fn lemma_normalized_div_fits(c: int, m2: int, r: int)
    requires
        mul_v(c, c) <= m2,
        is_sqrt(m2, r),
        1 <= r,
    ensures
        iabs(div_v(c, r)) <= 281483566645248,
        fits(div_v(c, r)),
{
    lemma_abs_mul(c, c);
    lemma_fundamental_div_mod(c * c, SCALE as int);
    lemma_mod_bound_for_square(c);
    assert(iabs(c) <= r + 65537) by (nonlinear_arith)
        requires
            c * c <= m2 * (SCALE as int) + (SCALE as int),
            m2 * (SCALE as int) < (r + 1) * (r + 1),
            1 <= r,
    ;
    assert((r + 65537) * (SCALE as int) <= 281483566645248 * r);
    lemma_div_v_bound(c, r, r + 65537, r, 281483566645248);
}

/// The remainder of a square by the scale is within one scale unit, so the
/// square is below its truncated quotient times the scale, plus the scale.
proof fn lemma_mod_bound_for_square(c: int)
    ensures
        c * c <= mul_v(c, c) * (SCALE as int) + (SCALE as int),
{
    lemma_abs_mul(c, c);
    lemma_fundamental_div_mod(c * c, SCALE as int);
    lemma_mod_bound(c * c, SCALE as int);
    assert(mul_v(c, c) == (c * c) / (SCALE as int));
    assert((c * c) / (SCALE as int) * (SCALE as int) == (SCALE as int) * ((c * c) / (
    SCALE as int))) by (nonlinear_arith);
}

/// The product of a mathematical integer with itself is never negative.
pub proof fn lemma_int_square_nonneg(x: int)
    by (nonlinear_arith)
    ensures
        x * x >= 0,
{
}

/// The raw square root of a strictly positive scalar is itself nonzero.
pub proof fn lemma_sqrt_pos(x: int, r: int)
    requires
        is_sqrt(x, r),
        x >= 1,
    ensures
        r >= 1,
{
    assert(r >= 1) by (nonlinear_arith)
        requires
            0 <= r,
            x * (SCALE as int) < (r + 1) * (r + 1),
            x >= 1,
    ;
}

/// A raw square root is unique, so any witness determines `sqrt_v`.
pub proof fn lemma_sqrt_unique(x: int, r: int)
    requires
        is_sqrt(x, r),
    ensures
        sqrt_v(x) == r,
{
    assert(exists|t: int| is_sqrt(x, t));
    let s = sqrt_v(x);
    assert(is_sqrt(x, s));
    assert(s == r) by (nonlinear_arith)
        requires
            0 <= s,
            s * s <= x * (SCALE as int),
            x * (SCALE as int) < (s + 1) * (s + 1),
            0 <= r,
            r * r <= x * (SCALE as int),
            x * (SCALE as int) < (r + 1) * (r + 1),
    ;
}

impl Scalar {
    /// The scalar with the given raw (scaled by 2^32) representation.
    pub fn from_raw(bits: i64) -> (r: Scalar)
        ensures
            r@ == bits as int,
    {
        Scalar { bits }
    }

    /// Raw representation of this scalar.
    pub fn raw(self) -> (r: i64)
        ensures
            r as int == self@,
    {
        self.bits
    }

    /// The scalar holding the integer `i` exactly.
    pub fn from_int(i: i64) -> (r: Scalar)
        requires
            -2147483648 <= i <= 2147483647,
        ensures
            r@ == i * (SCALE as int),
    {
        Scalar { bits: i * SCALE }
    }

    /// The scalar nearest `n / d` from below in magnitude (rounds toward zero).
    pub fn from_ratio(n: i64, d: i64) -> (r: Scalar)
        requires
            d != 0,
            fits(tdiv(n * (SCALE as int), d as int)),
        ensures
            r@ == tdiv(n * (SCALE as int), d as int),
    {
        let nm: u128 = if n >= 0 {
            n as u128
        } else {
            (-(n as i128)) as u128
        };
        let dm: u128 = if d >= 0 {
            d as u128
        } else {
            (-(d as i128)) as u128
        };
        let p: u128 = nm * 4294967296u128;
        let q: u128 = p / dm;
        proof {
            lemma_abs_mul(n as int, SCALE as int);
            lemma_div_pos_is_pos(iabs(n * (SCALE as int)), iabs(d as int));
        }
        if (n >= 0) == (d >= 0) {
            Scalar { bits: q as i64 }
        } else {
            Scalar { bits: (-(q as i128)) as i64 }
        }
    }

    pub fn zero() -> (r: Scalar)
        ensures
            r@ == 0,
    {
        Scalar { bits: 0 }
    }

    pub fn one() -> (r: Scalar)
        ensures
            r@ == SCALE as int,
    {
        Scalar { bits: SCALE }
    }

    /// The default tolerance for approximate comparisons.
    pub fn default_epsilon() -> (r: Scalar)
        ensures
            r@ == DEF_EPSILON_RAW as int,
    {
        Scalar { bits: DEF_EPSILON_RAW }
    }

    pub fn add(self, rhs: Scalar) -> (r: Scalar)
        requires
            fits(self@ + rhs@),
        ensures
            r@ == self@ + rhs@,
    {
        Scalar { bits: self.bits + rhs.bits }
    }

    pub fn sub(self, rhs: Scalar) -> (r: Scalar)
        requires
            fits(self@ - rhs@),
        ensures
            r@ == self@ - rhs@,
    {
        Scalar { bits: self.bits - rhs.bits }
    }

    pub fn neg(self) -> (r: Scalar)
        requires
            fits(-self@),
        ensures
            r@ == -self@,
    {
        Scalar { bits: -self.bits }
    }

    pub fn abs(self) -> (r: Scalar)
        requires
            fits(-self@),
        ensures
            r@ == iabs(self@),
    {
        if self.bits >= 0 {
            self
        } else {
            Scalar { bits: -self.bits }
        }
    }

    pub fn min(self, rhs: Scalar) -> (r: Scalar)
        ensures
            r@ == imin(self@, rhs@),
    {
        if self.bits <= rhs.bits {
            self
        } else {
            rhs
        }
    }

    pub fn max(self, rhs: Scalar) -> (r: Scalar)
        ensures
            r@ == imax(self@, rhs@),
    {
        if self.bits >= rhs.bits {
            self
        } else {
            rhs
        }
    }

    /// Truncating fixed-point product.
    pub fn mul(self, rhs: Scalar) -> (r: Scalar)
        requires
            fits(mul_v(self@, rhs@)),
        ensures
            r@ == mul_v(self@, rhs@),
    {
        let a: i64 = self.bits;
        let b: i64 = rhs.bits;
        let am: u128 = if a >= 0 {
            a as u128
        } else {
            (-(a as i128)) as u128
        };
        let bm: u128 = if b >= 0 {
            b as u128
        } else {
            (-(b as i128)) as u128
        };
        proof {
            lemma_mul_upper_bound(
                am as int,
                0x8000000000000000,
                bm as int,
                0x8000000000000000,
            );
        }
        let p: u128 = am * bm;
        let q: u128 = p / 4294967296u128;
        proof {
            assert(am as int == iabs(a as int));
            assert(bm as int == iabs(b as int));
            assert(p as int == iabs(a as int) * iabs(b as int));
            lemma_abs_mul(a as int, b as int);
            assert(p as int == iabs((a as int) * (b as int)));
            assert(q as int == iabs((a as int) * (b as int)) / (SCALE as int));
            lemma_div_pos_is_pos(iabs(a as int * b as int), SCALE as int);
            if (a >= 0) == (b >= 0) {
                assert((a as int) * (b as int) >= 0);
                assert(mul_v(a as int, b as int) == q as int);
            } else {
                assert(mul_v(a as int, b as int) == tdiv((a as int) * (b as int), SCALE as int));
                if (a as int) * (b as int) >= 0 {
                    assert(a as int == 0 || b as int == 0);
                    assert(iabs((a as int) * (b as int)) == 0);
                    assert(q as int == 0);
                } else {
                    assert(mul_v(a as int, b as int) == -(q as int));
                }
            }
        }
        if (a >= 0) == (b >= 0) {
            Scalar { bits: q as i64 }
        } else {
            Scalar { bits: (-(q as i128)) as i64 }
        }
    }

    /// Converts an angle in degrees to radians by one truncating product
    /// with pi / 180.
    pub fn to_radians(self) -> (r: Scalar)
        requires
            fits(mul_v(self@, DEG_TO_RAD_RAW as int)),
        ensures
            r@ == mul_v(self@, DEG_TO_RAD_RAW as int),
    {
        self.mul(Scalar { bits: DEG_TO_RAD_RAW })
    }

    /// Converts an angle in radians to degrees by one truncating product
    /// with 180 / pi.
    pub fn to_degrees(self) -> (r: Scalar)
        requires
            fits(mul_v(self@, RAD_TO_DEG_RAW as int)),
        ensures
            r@ == mul_v(self@, RAD_TO_DEG_RAW as int),
    {
        self.mul(Scalar { bits: RAD_TO_DEG_RAW })
    }

    /// Square root, rounded down to the representable grid.
    pub fn sqrt(self) -> (r: Scalar)
        requires
            self@ >= 0,
        ensures
            r@ == sqrt_v(self@),
            is_sqrt(self@, r@),
    {
        let n: u128 = (self.bits as u128) * 4294967296u128;
        let mut lo: u64 = 0;
        let mut hi: u64 = 0x1000000000000;
        proof {
            assert((0x1000000000000 as int) * (0x1000000000000 as int) > (n as int));
        }
        while lo + 1 < hi
            invariant
                lo < hi,
                hi <= 0x1000000000000,
                (lo as int) * (lo as int) <= n as int,
                (n as int) < (hi as int) * (hi as int),
            decreases hi - lo,
        {
            let mid: u64 = lo + (hi - lo) / 2;
            proof {
                lemma_mul_upper_bound(mid as int, 0x1000000000000, mid as int, 0x1000000000000);
            }
            let sq: u128 = (mid as u128) * (mid as u128);
            if sq <= n {
                lo = mid;
            } else {
                hi = mid;
            }
        }
        proof {
            assert(is_sqrt(self@, lo as int));
            lemma_sqrt_unique(self@, lo as int);
        }
        Scalar { bits: lo as i64 }
    }

    /// Approximate equality within the given tolerance, comparing the
    /// difference relative to the magnitudes except around zero.
    pub fn approx_eq(self, rhs: Scalar, epsilon: Scalar) -> (r: bool)
        ensures
            r == approx_eq_v(self@, rhs@, epsilon@),
    {
        if self.bits == rhs.bits {
            true
        } else {
            let diff: i128 = (self.bits as i128) - (rhs.bits as i128);
            let adiff: u128 = if diff >= 0 {
                diff as u128
            } else {
                (-diff) as u128
            };
            if self.bits == 0 || rhs.bits == 0 {
                if epsilon.bits <= 0 {
                    false
                } else {
                    adiff < epsilon.bits as u128
                }
            } else {
                let aa: i128 = if self.bits >= 0 {
                    self.bits as i128
                } else {
                    -(self.bits as i128)
                };
                let ab: i128 = if rhs.bits >= 0 {
                    rhs.bits as i128
                } else {
                    -(rhs.bits as i128)
                };
                let sum: i128 = aa + ab;
                let denom: i128 = if sum <= i64::MAX as i128 {
                    sum
                } else {
                    i64::MAX as i128
                };
                let p: u128 = adiff * 4294967296u128;
                let q: u128 = p / (denom as u128);
                proof {
                    lemma_abs_mul((self@ - rhs@) as int, SCALE as int);
                    lemma_div_pos_is_pos(
                        iabs((self@ - rhs@) * (SCALE as int)),
                        imin(iabs(self@) + iabs(rhs@), i64::MAX as int),
                    );
                }
                if epsilon.bits <= 0 {
                    false
                } else {
                    q < epsilon.bits as u128
                }
            }
        }
    }

    /// Approximate equality within the default tolerance.
    pub fn approx_eq_def(self, rhs: Scalar) -> (r: bool)
        ensures
            r == approx_eq_v(self@, rhs@, DEF_EPSILON_RAW as int),
    {
        self.approx_eq(rhs, Scalar { bits: DEF_EPSILON_RAW })
    }

    /// Truncating fixed-point quotient.
    pub fn div(self, rhs: Scalar) -> (r: Scalar)
        requires
            rhs@ != 0,
            fits(div_v(self@, rhs@)),
        ensures
            r@ == div_v(self@, rhs@),
    {
        let a: i64 = self.bits;
        let b: i64 = rhs.bits;
        let am: u128 = if a >= 0 {
            a as u128
        } else {
            (-(a as i128)) as u128
        };
        let bm: u128 = if b >= 0 {
            b as u128
        } else {
            (-(b as i128)) as u128
        };
        let p: u128 = am * 4294967296u128;
        let q: u128 = p / bm;
        proof {
            lemma_abs_mul(a as int, SCALE as int);
            lemma_div_pos_is_pos(iabs(a as int * (SCALE as int)), iabs(b as int));
        }
        if (a >= 0) == (b >= 0) {
            Scalar { bits: q as i64 }
        } else {
            Scalar { bits: (-(q as i128)) as i64 }
        }
    }
}

} // verus!
