//! Trigonometric operations on the fixed-point scalar.
//!
//! Angles are radians in raw (scaled by 2^32) units.  Sine and cosine reduce
//! the angle into one period, fold it into the first quadrant, and evaluate
//! one truncated Taylor polynomial there; the inverse functions reduce to one
//! arctangent polynomial on a small interval.  Every function states exactly
//! which raw value it returns, through spec functions that mirror the chosen
//! reduction and polynomial at the level of raw values.

use vstd::prelude::*;
use vstd::arithmetic::div_mod::lemma_fundamental_div_mod;
use vstd::arithmetic::div_mod::lemma_fundamental_div_mod_converse_mod;
use crate::scalar::Scalar;
use crate::scalar::SCALE;
use crate::scalar::div_v;
use crate::scalar::iabs;
use crate::scalar::lemma_div_le;
use crate::scalar::lemma_mul_v_bound;
use crate::scalar::lemma_square_nonneg;
use crate::scalar::mul_v;
use crate::scalar::sqrt_v;

verus! {

/// Raw value of pi / 2.
pub const HALF_PI_RAW: i64 = 6746518852;

/// Raw value of pi, twice `HALF_PI_RAW` so that the quadrant folds meet
/// exactly.
pub const PI_RAW: i64 = 13493037704;

/// Raw value of 2 * pi, four times `HALF_PI_RAW`.
pub const TWO_PI_RAW: i64 = 26986075408;

/// Raw value of pi / 4.
pub const QUARTER_PI_RAW: i64 = 3373259426;

/// Raw value of tan(pi / 8), the split point of the arctangent reduction.
pub const TAN_EIGHTH_PI_RAW: i64 = 1779033704;

/// Taylor coefficient 1/3! of the sine polynomial, in raw units.
pub const SIN_C3: i64 = 715827883;

/// Taylor coefficient 1/5! of the sine polynomial, in raw units.
pub const SIN_C5: i64 = 35791394;

/// Taylor coefficient 1/7! of the sine polynomial, in raw units.
pub const SIN_C7: i64 = 852176;

/// Taylor coefficient 1/9! of the sine polynomial, in raw units.
pub const SIN_C9: i64 = 11836;

/// Taylor coefficient 1/11! of the sine polynomial, in raw units.
pub const SIN_C11: i64 = 108;

/// Taylor coefficient 1/13! of the sine polynomial, in raw units.
pub const SIN_C13: i64 = 1;

/// Series coefficient 1/3 of the arctangent polynomial, in raw units.
pub const ATAN_C3: i64 = 1431655765;

/// Series coefficient 1/5 of the arctangent polynomial, in raw units.
pub const ATAN_C5: i64 = 858993459;

/// Series coefficient 1/7 of the arctangent polynomial, in raw units.
pub const ATAN_C7: i64 = 613566757;

/// Series coefficient 1/9 of the arctangent polynomial, in raw units.
pub const ATAN_C9: i64 = 477218588;

/// Series coefficient 1/11 of the arctangent polynomial, in raw units.
pub const ATAN_C11: i64 = 390451572;

/// Series coefficient 1/13 of the arctangent polynomial, in raw units.
pub const ATAN_C13: i64 = 330382100;

/// Series coefficient 1/15 of the arctangent polynomial, in raw units.
pub const ATAN_C15: i64 = 286331153;

/// Truncated Taylor polynomial of the sine on the first quadrant, evaluated
/// with truncating raw products (Horner form over the squared argument).
pub open spec fn sin_poly_v(x: int) -> int {
    let y = mul_v(x, x);
    let t5 = SIN_C11 - mul_v(y, SIN_C13 as int);
    let t4 = SIN_C9 - mul_v(y, t5);
    let t3 = SIN_C7 - mul_v(y, t4);
    let t2 = SIN_C5 - mul_v(y, t3);
    let t1 = SIN_C3 - mul_v(y, t2);
    mul_v(x, (SCALE as int) - mul_v(y, t1))
}

/// Sine of an angle already reduced into `[0, 2*pi)`, folded onto the first
/// quadrant of the polynomial.
pub open spec fn sin_q(m: int) -> int {
    if m < HALF_PI_RAW {
        sin_poly_v(m)
    } else if m < PI_RAW {
        sin_poly_v(PI_RAW - m)
    } else if m < PI_RAW + HALF_PI_RAW {
        -sin_poly_v(m - PI_RAW)
    } else {
        -sin_poly_v(TWO_PI_RAW - m)
    }
}

/// Raw sine of a raw radian angle.
pub open spec fn sin_v(x: int) -> int {
    sin_q(x % (TWO_PI_RAW as int))
}

/// Raw cosine of a raw radian angle: the sine shifted by a quarter turn.
pub open spec fn cos_v(x: int) -> int {
    sin_q((x + HALF_PI_RAW) % (TWO_PI_RAW as int))
}

/// Truncated series polynomial of the arctangent on the reduced interval,
/// evaluated with truncating raw products.
pub open spec fn atan_poly_v(z: int) -> int {
    let w = mul_v(z, z);
    let u6 = ATAN_C13 - mul_v(w, ATAN_C15 as int);
    let u5 = ATAN_C11 - mul_v(w, u6);
    let u4 = ATAN_C9 - mul_v(w, u5);
    let u3 = ATAN_C7 - mul_v(w, u4);
    let u2 = ATAN_C5 - mul_v(w, u3);
    let u1 = ATAN_C3 - mul_v(w, u2);
    mul_v(z, (SCALE as int) - mul_v(w, u1))
}

/// Raw arctangent of a raw ratio in `[0, 1]`: the polynomial directly below
/// tan(pi/8), and through the half-angle identity
/// `atan(z) = pi/4 - atan((1 - z) / (1 + z))` above it.
pub open spec fn atan_unit_v(z: int) -> int {
    if z <= TAN_EIGHTH_PI_RAW {
        atan_poly_v(z)
    } else {
        (QUARTER_PI_RAW as int) - atan_poly_v(div_v((SCALE as int) - z, (SCALE as int) + z))
    }
}

/// Raw two-argument arctangent: the angle of the point `(x, y)`, in
/// `(-pi, pi]`, with `atan2_v(0, 0) == 0`.
pub open spec fn atan2_v(y: int, x: int) -> int {
    if y == 0 && x == 0 {
        0
    } else {
        let t = if iabs(y) <= iabs(x) {
            atan_unit_v(div_v(iabs(y), iabs(x)))
        } else {
            (HALF_PI_RAW as int) - atan_unit_v(div_v(iabs(x), iabs(y)))
        };
        let u = if x >= 0 {
            t
        } else {
            (PI_RAW as int) - t
        };
        if y >= 0 {
            u
        } else {
            -u
        }
    }
}

/// Raw arcsine of a raw value in `[-1, 1]`.
pub open spec fn asin_v(x: int) -> int {
    atan2_v(x, sqrt_v((SCALE as int) - mul_v(x, x)))
}

/// Raw arccosine of a raw value in `[-1, 1]`.
pub open spec fn acos_v(x: int) -> int {
    (HALF_PI_RAW as int) - asin_v(x)
}

/// Reduces a raw angle into `[0, 2*pi)` by the Euclidean remainder.
fn rem_two_pi(x: i64) -> (m: i64)
    ensures
        0 <= m < TWO_PI_RAW,
        m as int == (x as int) % (TWO_PI_RAW as int),
{
    if x >= 0 {
        let m: u64 = (x as u64) % 26986075408u64;
        m as i64
    } else {
        let am: u64 = (-(x as i128)) as u64;
        let rm: u64 = am % 26986075408u64;
        proof {
            lemma_fundamental_div_mod(am as int, TWO_PI_RAW as int);
        }
        if rm == 0 {
            proof {
                lemma_fundamental_div_mod_converse_mod(
                    x as int,
                    TWO_PI_RAW as int,
                    -((am as int) / (TWO_PI_RAW as int)),
                    0,
                );
            }
            0
        } else {
            proof {
                lemma_fundamental_div_mod_converse_mod(
                    x as int,
                    TWO_PI_RAW as int,
                    -((am as int) / (TWO_PI_RAW as int)) - 1,
                    (TWO_PI_RAW as int) - rm,
                );
            }
            (26986075408u64 - rm) as i64
        }
    }
}

/// Evaluates the first-quadrant sine polynomial.
fn sin_poly(x: Scalar) -> (r: Scalar)
    requires
        0 <= x@ <= HALF_PI_RAW,
    ensures
        r@ == sin_poly_v(x@),
        iabs(r@) <= 10000000000,
{
    proof {
        lemma_mul_v_bound(x@, x@, 6746518852, 6746518852, 10597407031);
        lemma_square_nonneg(x@);
    }
    let y = x.mul(x);
    proof {
        lemma_mul_v_bound(y@, SIN_C13 as int, 10597407031, 1, 3);
    }
    let t5 = Scalar::from_raw(SIN_C11).sub(y.mul(Scalar::from_raw(SIN_C13)));
    proof {
        lemma_mul_v_bound(y@, t5@, 10597407031, 111, 300);
    }
    let t4 = Scalar::from_raw(SIN_C9).sub(y.mul(t5));
    proof {
        lemma_mul_v_bound(y@, t4@, 10597407031, 12200, 31000);
    }
    let t3 = Scalar::from_raw(SIN_C7).sub(y.mul(t4));
    proof {
        lemma_mul_v_bound(y@, t3@, 10597407031, 890000, 2200000);
    }
    let t2 = Scalar::from_raw(SIN_C5).sub(y.mul(t3));
    proof {
        lemma_mul_v_bound(y@, t2@, 10597407031, 38000000, 94000000);
    }
    let t1 = Scalar::from_raw(SIN_C3).sub(y.mul(t2));
    proof {
        lemma_mul_v_bound(y@, t1@, 10597407031, 810000000, 2000000000);
    }
    let inner = Scalar::one().sub(y.mul(t1));
    proof {
        lemma_mul_v_bound(x@, inner@, 6746518852, 6300000000, 10000000000);
    }
    x.mul(inner)
}

/// Sine of an angle already reduced into `[0, 2*pi)`.
fn sin_reduced(m: i64) -> (r: Scalar)
    requires
        0 <= m < TWO_PI_RAW,
    ensures
        r@ == sin_q(m as int),
        iabs(r@) <= 10000000000,
{
    if m < HALF_PI_RAW {
        sin_poly(Scalar::from_raw(m))
    } else if m < PI_RAW {
        sin_poly(Scalar::from_raw(PI_RAW - m))
    } else if m < PI_RAW + HALF_PI_RAW {
        sin_poly(Scalar::from_raw(m - PI_RAW)).neg()
    } else {
        sin_poly(Scalar::from_raw(TWO_PI_RAW - m)).neg()
    }
}

impl Scalar {
    /// Sine of this raw radian angle.
    pub fn sin(self) -> (r: Scalar)
        ensures
            r@ == sin_v(self@),
            iabs(r@) <= 10000000000,
    {
        let m = rem_two_pi(self.bits);
        sin_reduced(m)
    }

    /// Cosine of this raw radian angle.
    pub fn cos(self) -> (r: Scalar)
        ensures
            r@ == cos_v(self@),
            iabs(r@) <= 10000000000,
    {
        let m = rem_two_pi(self.bits);
        let m2: i64 = m + HALF_PI_RAW;
        let m3: i64 = if m2 >= TWO_PI_RAW {
            m2 - TWO_PI_RAW
        } else {
            m2
        };
        proof {
            lemma_fundamental_div_mod(self@, TWO_PI_RAW as int);
            if m2 >= TWO_PI_RAW {
                lemma_fundamental_div_mod_converse_mod(
                    self@ + HALF_PI_RAW,
                    TWO_PI_RAW as int,
                    self@ / (TWO_PI_RAW as int) + 1,
                    m3 as int,
                );
            } else {
                lemma_fundamental_div_mod_converse_mod(
                    self@ + HALF_PI_RAW,
                    TWO_PI_RAW as int,
                    self@ / (TWO_PI_RAW as int),
                    m3 as int,
                );
            }
        }
        sin_reduced(m3)
    }

    /// Two-argument arctangent: the angle of the point `(x, self)`.
    pub fn atan2(self, x: Scalar) -> (r: Scalar)
        ensures
            r@ == atan2_v(self@, x@),
            iabs(r@) <= 20000000000,
    {
        let y = self;
        let ay: u64 = if y.bits >= 0 {
            y.bits as u64
        } else {
            (-(y.bits as i128)) as u64
        };
        let ax: u64 = if x.bits >= 0 {
            x.bits as u64
        } else {
            (-(x.bits as i128)) as u64
        };
        if ay == 0 && ax == 0 {
            return Scalar::zero();
        }
        let t: Scalar = if ay <= ax {
            let z = udiv_scaled(ay, ax);
            atan_unit(Scalar::from_raw(z as i64))
        } else {
            let z = udiv_scaled(ax, ay);
            Scalar::from_raw(HALF_PI_RAW).sub(atan_unit(Scalar::from_raw(z as i64)))
        };
        let u: Scalar = if x.bits >= 0 {
            t
        } else {
            Scalar::from_raw(PI_RAW).sub(t)
        };
        if y.bits >= 0 {
            u
        } else {
            u.neg()
        }
    }

    /// Arcsine of a raw value in `[-1, 1]`.
    pub fn asin(self) -> (r: Scalar)
        requires
            -(SCALE as int) <= self@ <= SCALE as int,
        ensures
            r@ == asin_v(self@),
            iabs(r@) <= 20000000000,
    {
        proof {
            lemma_mul_v_bound(self@, self@, SCALE as int, SCALE as int, SCALE as int);
            lemma_square_nonneg(self@);
        }
        let s = Scalar::one().sub(self.mul(self)).sqrt();
        self.atan2(s)
    }

    /// Arccosine of a raw value in `[-1, 1]`.
    pub fn acos(self) -> (r: Scalar)
        requires
            -(SCALE as int) <= self@ <= SCALE as int,
        ensures
            r@ == acos_v(self@),
    {
        Scalar::from_raw(HALF_PI_RAW).sub(self.asin())
    }
}

/// Scaled quotient of magnitudes, used by the arctangent reduction.
fn udiv_scaled(a: u64, b: u64) -> (q: u64)
    requires
        b > 0,
        a <= b,
    ensures
        q as int == div_v(a as int, b as int),
        q <= 4294967296,
{
    let p: u128 = (a as u128) * 4294967296u128;
    let q: u128 = p / (b as u128);
    proof {
        lemma_div_le(p as int, b as int, SCALE as int);
    }
    q as u64
}

/// Evaluates the reduced arctangent polynomial.
fn atan_poly(z: Scalar) -> (r: Scalar)
    requires
        0 <= z@ <= 1800000000,
    ensures
        r@ == atan_poly_v(z@),
        iabs(r@) <= 2000000000,
{
    proof {
        lemma_mul_v_bound(z@, z@, 1800000000, 1800000000, 760000000);
        lemma_square_nonneg(z@);
    }
    let w = z.mul(z);
    proof {
        lemma_mul_v_bound(w@, ATAN_C15 as int, 760000000, 286331153, 51000000);
    }
    let u6 = Scalar::from_raw(ATAN_C13).sub(w.mul(Scalar::from_raw(ATAN_C15)));
    proof {
        lemma_mul_v_bound(w@, u6@, 760000000, 382000000, 68000000);
    }
    let u5 = Scalar::from_raw(ATAN_C11).sub(w.mul(u6));
    proof {
        lemma_mul_v_bound(w@, u5@, 760000000, 459000000, 82000000);
    }
    let u4 = Scalar::from_raw(ATAN_C9).sub(w.mul(u5));
    proof {
        lemma_mul_v_bound(w@, u4@, 760000000, 560000000, 100000000);
    }
    let u3 = Scalar::from_raw(ATAN_C7).sub(w.mul(u4));
    proof {
        lemma_mul_v_bound(w@, u3@, 760000000, 714000000, 127000000);
    }
    let u2 = Scalar::from_raw(ATAN_C5).sub(w.mul(u3));
    proof {
        lemma_mul_v_bound(w@, u2@, 760000000, 986000000, 175000000);
    }
    let u1 = Scalar::from_raw(ATAN_C3).sub(w.mul(u2));
    proof {
        lemma_mul_v_bound(w@, u1@, 760000000, 1607000000, 285000000);
    }
    let inner = Scalar::one().sub(w.mul(u1));
    proof {
        lemma_mul_v_bound(z@, inner@, 1800000000, 4580000000, 2000000000);
    }
    z.mul(inner)
}

/// Arctangent of a raw ratio in `[0, 1]`.
fn atan_unit(z: Scalar) -> (r: Scalar)
    requires
        0 <= z@ <= SCALE as int,
    ensures
        r@ == atan_unit_v(z@),
        iabs(r@) <= 6000000000,
{
    if z.raw() <= TAN_EIGHTH_PI_RAW {
        atan_poly(z)
    } else {
        let num = Scalar::one().sub(z);
        let den = Scalar::one().add(z);
        proof {
            assert(((SCALE as int) - z@) * (SCALE as int) <= 1800000000 * ((SCALE as int) + z@));
            lemma_div_le(((SCALE as int) - z@) * (SCALE as int), (SCALE as int) + z@, 1800000000);
        }
        let z2 = num.div(den);
        Scalar::from_raw(QUARTER_PI_RAW).sub(atan_poly(z2))
    }
}

} // verus!
