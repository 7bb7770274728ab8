//! Quaternions of fixed-point scalars: a real part `w` and a vector part
//! `v`, composed by the Hamilton product.

use vstd::prelude::*;
use crate::scalar::Scalar;
use crate::scalar::DEF_EPSILON_RAW;
use crate::scalar::SCALE;
use crate::scalar::approx_eq_v;
use crate::scalar::div_v;
use crate::scalar::fits;
use crate::scalar::iabs;
use crate::scalar::is_sqrt;
use crate::scalar::lemma_mul_v_bound;
use crate::scalar::lemma_mul_v_one;
use crate::scalar::lemma_mul_v_zero;
use crate::scalar::lemma_normalized_div_fits;
use crate::scalar::lemma_sqrt_pos;
use crate::scalar::lemma_square_nonneg;
use crate::scalar::mul_v;
use crate::scalar::sqrt_v;
use crate::vec3::Vec3;
use crate::vec3::Vec3V;
use crate::vec3::cross3_v;
use crate::vec3::cross3_fits;
use crate::vec3::dot3_v;
use crate::vec3::dot3_fits;
use crate::vec3::is_unit3_v;
use crate::vec3::normalized3_v;
use crate::mat3::ALMOST_ONE_RAW;
use crate::mat3::Mat3;
use crate::mat3::Mat3V;
use crate::mat3::TRIG_BOUND;
use crate::mat3::lemma_deg_to_rad_fits;
use crate::mat3::mat3_bounded;
use crate::scalar::DEG_TO_RAD_RAW;
use crate::scalar::RAD_TO_DEG_RAW;
use crate::scalar::lemma_div_v_bound;
use crate::trig::HALF_PI_RAW;
use crate::trig::acos_v;
use crate::trig::asin_v;
use crate::trig::atan2_v;
use crate::trig::cos_v;
use crate::trig::sin_v;
use crate::RotationOrder;

verus! {

/// Raw value of one half.
pub const HALF_ONE_RAW: i64 = 2147483648;

/// Raw value of one quarter.
pub const QUARTER_ONE_RAW: i64 = 1073741824;

/// Raw value of two.
pub const TWO_ONE_RAW: i64 = 8589934592;

/// Raw value of 0.0001, the degeneracy threshold of the axis extraction.
pub const AXIS_EPS_RAW: i64 = 429497;

/// Mathematical model of a `Quat`: the raw real part and vector part.
pub ghost struct QuatV {
    pub w: int,
    pub v: Vec3V,
}

/// Raw four-component dot product of two modelled quaternions.
pub open spec fn qdot_v(a: QuatV, b: QuatV) -> int {
    mul_v(a.w, b.w) + dot3_v(a.v, b.v)
}

/// All intermediates of `qdot_v` are representable.
pub open spec fn qdot_fits(a: QuatV, b: QuatV) -> bool {
    fits(mul_v(a.w, b.w)) && dot3_fits(a.v, b.v) && fits(qdot_v(a, b))
}

/// Model of the Hamilton product, with the operations in the order the
/// executable product performs them.
pub open spec fn quat_mul_v(a: QuatV, b: QuatV) -> QuatV {
    QuatV {
        w: mul_v(b.w, a.w) - dot3_v(a.v, b.v),
        v: Vec3V {
            x: mul_v(b.v.x, a.w) + mul_v(a.v.x, b.w) + cross3_v(a.v, b.v).x,
            y: mul_v(b.v.y, a.w) + mul_v(a.v.y, b.w) + cross3_v(a.v, b.v).y,
            z: mul_v(b.v.z, a.w) + mul_v(a.v.z, b.w) + cross3_v(a.v, b.v).z,
        },
    }
}

/// All intermediates of `quat_mul_v` are representable.
pub open spec fn quat_mul_fits(a: QuatV, b: QuatV) -> bool {
    fits(mul_v(b.w, a.w)) && dot3_fits(a.v, b.v) && fits(quat_mul_v(a, b).w) && cross3_fits(
        a.v,
        b.v,
    ) && fits(mul_v(b.v.x, a.w)) && fits(mul_v(b.v.y, a.w)) && fits(mul_v(b.v.z, a.w)) && fits(
        mul_v(a.v.x, b.w),
    ) && fits(mul_v(a.v.y, b.w)) && fits(mul_v(a.v.z, b.w)) && fits(
        mul_v(b.v.x, a.w) + mul_v(a.v.x, b.w),
    ) && fits(mul_v(b.v.y, a.w) + mul_v(a.v.y, b.w)) && fits(
        mul_v(b.v.z, a.w) + mul_v(a.v.z, b.w),
    ) && fits(quat_mul_v(a, b).v.x) && fits(quat_mul_v(a, b).v.y) && fits(quat_mul_v(a, b).v.z)
}

/// Model of the conjugate: the vector part negated.
pub open spec fn quat_conj_v(q: QuatV) -> QuatV {
    QuatV { w: q.w, v: Vec3V { x: -q.v.x, y: -q.v.y, z: -q.v.z } }
}

/// Model of the inverse: the conjugate divided by the squared magnitude.
pub open spec fn quat_inverse_v(q: QuatV) -> QuatV {
    let m2 = qdot_v(q, q);
    QuatV {
        w: div_v(q.w, m2),
        v: Vec3V { x: div_v(-q.v.x, m2), y: div_v(-q.v.y, m2), z: div_v(-q.v.z, m2) },
    }
}

/// Model of normalization: each component divided by the magnitude.
pub open spec fn quat_normalized_v(q: QuatV) -> QuatV {
    let m = sqrt_v(qdot_v(q, q));
    QuatV {
        w: div_v(q.w, m),
        v: Vec3V { x: div_v(q.v.x, m), y: div_v(q.v.y, m), z: div_v(q.v.z, m) },
    }
}

/// Whether the modelled quaternion is approximately unit length.
pub open spec fn quat_is_unit_v(q: QuatV) -> bool {
    approx_eq_v(qdot_v(q, q), SCALE as int, DEF_EPSILON_RAW as int)
}

/// Whether every component is bounded by `b` in magnitude.
pub open spec fn quat_bounded(q: QuatV, b: int) -> bool {
    iabs(q.w) <= b && iabs(q.v.x) <= b && iabs(q.v.y) <= b && iabs(q.v.z) <= b
}

/// A Hamilton product of quaternions bounded by `ba` and `bb` is bounded by
/// `4 * c` when `ba * bb <= c * SCALE`, and none of its intermediates
/// overflows.
pub proof fn lemma_quat_mul_bounded(a: QuatV, b: QuatV, ba: int, bb: int, c: int)
    requires
        quat_bounded(a, ba),
        quat_bounded(b, bb),
        ba * bb <= c * (SCALE as int),
        0 <= c,
        4 * c <= i64::MAX,
    ensures
        quat_mul_fits(a, b),
        quat_bounded(quat_mul_v(a, b), 4 * c),
{
    vstd::arithmetic::mul::lemma_mul_is_commutative(ba, bb);
    lemma_mul_v_bound(b.w, a.w, bb, ba, c);
    lemma_mul_v_bound(a.v.x, b.v.x, ba, bb, c);
    lemma_mul_v_bound(a.v.y, b.v.y, ba, bb, c);
    lemma_mul_v_bound(a.v.z, b.v.z, ba, bb, c);
    lemma_mul_v_bound(b.v.x, a.w, bb, ba, c);
    lemma_mul_v_bound(b.v.y, a.w, bb, ba, c);
    lemma_mul_v_bound(b.v.z, a.w, bb, ba, c);
    lemma_mul_v_bound(a.v.x, b.w, ba, bb, c);
    lemma_mul_v_bound(a.v.y, b.w, ba, bb, c);
    lemma_mul_v_bound(a.v.z, b.w, ba, bb, c);
    lemma_mul_v_bound(a.v.y, b.v.z, ba, bb, c);
    lemma_mul_v_bound(a.v.z, b.v.y, ba, bb, c);
    lemma_mul_v_bound(a.v.z, b.v.x, ba, bb, c);
    lemma_mul_v_bound(a.v.x, b.v.z, ba, bb, c);
    lemma_mul_v_bound(a.v.x, b.v.y, ba, bb, c);
    lemma_mul_v_bound(a.v.y, b.v.x, ba, bb, c);
}

/// A quaternion stored as its real part `w` and vector part `v`.
#[derive(Clone, Copy, Debug, PartialEq, Eq, Structural)]
pub struct Quat {
    pub w: Scalar,
    pub v: Vec3,
}

impl View for Quat {
    type V = QuatV;

    open spec fn view(&self) -> QuatV {
        QuatV { w: self.w@, v: self.v@ }
    }
}

impl Quat {
    /// The identity rotation: real part one, vector part zero.
    pub fn identity() -> (r: Quat)
        ensures
            r@ == (QuatV { w: SCALE as int, v: Vec3V { x: 0, y: 0, z: 0 } }),
    {
        Quat { w: Scalar::one(), v: Vec3::zero() }
    }

    /// Builds the quaternion from its components, real part first.
    pub fn new(w: Scalar, x: Scalar, y: Scalar, z: Scalar) -> (r: Quat)
        ensures
            r@ == (QuatV { w: w@, v: Vec3V { x: x@, y: y@, z: z@ } }),
    {
        Quat { w, v: Vec3 { x, y, z } }
    }

    /// Four-component dot product.
    pub fn dot(self, rhs: Quat) -> (r: Scalar)
        requires
            qdot_fits(self@, rhs@),
        ensures
            r@ == qdot_v(self@, rhs@),
    {
        self.w.mul(rhs.w).add(self.v.dot(rhs.v))
    }

    pub fn magnitude_squared(self) -> (r: Scalar)
        requires
            qdot_fits(self@, self@),
        ensures
            r@ == qdot_v(self@, self@),
    {
        self.dot(self)
    }

    pub fn magnitude(self) -> (r: Scalar)
        requires
            qdot_fits(self@, self@),
        ensures
            r@ == sqrt_v(qdot_v(self@, self@)),
            is_sqrt(qdot_v(self@, self@), r@),
    {
        proof {
            lemma_quat_square_nonneg(self@);
        }
        self.magnitude_squared().sqrt()
    }

    /// The conjugate: the vector part negated.
    pub fn conjugate(self) -> (r: Quat)
        requires
            fits(-self@.v.x),
            fits(-self@.v.y),
            fits(-self@.v.z),
        ensures
            r@ == quat_conj_v(self@),
    {
        Quat { w: self.w, v: self.v.neg() }
    }

    /// The inverse: the conjugate divided by the squared magnitude, so that
    /// composing with it undoes the rotation.
    pub fn inverse(self) -> (r: Quat)
        requires
            qdot_fits(self@, self@),
            qdot_v(self@, self@) != 0,
            fits(-self@.v.x),
            fits(-self@.v.y),
            fits(-self@.v.z),
            fits(div_v(self@.w, qdot_v(self@, self@))),
            fits(div_v(-self@.v.x, qdot_v(self@, self@))),
            fits(div_v(-self@.v.y, qdot_v(self@, self@))),
            fits(div_v(-self@.v.z, qdot_v(self@, self@))),
        ensures
            r@ == quat_inverse_v(self@),
    {
        let m2 = self.magnitude_squared();
        Quat {
            w: self.w.div(m2),
            v: Vec3 {
                x: self.v.x.neg().div(m2),
                y: self.v.y.neg().div(m2),
                z: self.v.z.neg().div(m2),
            },
        }
    }

    /// Scales to approximately unit length; the zero quaternion is refused
    /// by contract.
    pub fn normalized(self) -> (r: Quat)
        requires
            qdot_fits(self@, self@),
            qdot_v(self@, self@) != 0,
        ensures
            r@ == quat_normalized_v(self@),
    {
        let m = self.magnitude();
        proof {
            lemma_square_nonneg(self@.w);
            lemma_square_nonneg(self@.v.x);
            lemma_square_nonneg(self@.v.y);
            lemma_square_nonneg(self@.v.z);
            lemma_sqrt_pos(qdot_v(self@, self@), m@);
            lemma_normalized_div_fits(self@.w, qdot_v(self@, self@), m@);
            lemma_normalized_div_fits(self@.v.x, qdot_v(self@, self@), m@);
            lemma_normalized_div_fits(self@.v.y, qdot_v(self@, self@), m@);
            lemma_normalized_div_fits(self@.v.z, qdot_v(self@, self@), m@);
        }
        Quat {
            w: self.w.div(m),
            v: Vec3 { x: self.v.x.div(m), y: self.v.y.div(m), z: self.v.z.div(m) },
        }
    }

    /// Like `normalized`, but hands back the identity when the magnitude is
    /// below the default tolerance.
    pub fn normalized_safe(self) -> (r: Quat)
        requires
            qdot_fits(self@, self@),
        ensures
            sqrt_v(qdot_v(self@, self@)) < DEF_EPSILON_RAW ==> r@ == (QuatV {
                w: SCALE as int,
                v: Vec3V { x: 0, y: 0, z: 0 },
            }),
            sqrt_v(qdot_v(self@, self@)) >= DEF_EPSILON_RAW ==> r@ == quat_normalized_v(self@),
    {
        let mag = self.magnitude();
        if mag.raw() < DEF_EPSILON_RAW {
            Quat::identity()
        } else {
            proof {
                lemma_quat_square_nonneg(self@);
                lemma_sqrt_pos_converse(qdot_v(self@, self@), mag@);
            }
            self.normalized()
        }
    }

    /// Whether the real part is approximately zero, so the quaternion
    /// embeds a plain vector.
    pub fn is_pure(self) -> (r: bool)
        ensures
            r == approx_eq_v(self@.w, 0, DEF_EPSILON_RAW as int),
    {
        self.w.approx_eq_def(Scalar::zero())
    }

    /// Whether the squared magnitude is approximately one.
    pub fn is_unit(self) -> (r: bool)
        requires
            qdot_fits(self@, self@),
        ensures
            r == quat_is_unit_v(self@),
    {
        self.magnitude_squared().approx_eq_def(Scalar::one())
    }

    /// Whether the quaternion is both pure and unit.
    pub fn is_pure_unit(self) -> (r: bool)
        requires
            qdot_fits(self@, self@),
        ensures
            r == (approx_eq_v(self@.w, 0, DEF_EPSILON_RAW as int) && quat_is_unit_v(self@)),
    {
        self.is_pure() && self.is_unit()
    }

    /// Hamilton product.
    pub fn mul_quat(self, rhs: Quat) -> (r: Quat)
        requires
            quat_mul_fits(self@, rhs@),
        ensures
            r@ == quat_mul_v(self@, rhs@),
    {
        Quat {
            w: rhs.w.mul(self.w).sub(self.v.dot(rhs.v)),
            v: rhs.v.scale(self.w).add(self.v.scale(rhs.w)).add(self.v.cross(rhs.v)),
        }
    }

    /// Componentwise product with one scalar.
    pub fn scale(self, rhs: Scalar) -> (r: Quat)
        requires
            fits(mul_v(self@.w, rhs@)),
            fits(mul_v(self@.v.x, rhs@)),
            fits(mul_v(self@.v.y, rhs@)),
            fits(mul_v(self@.v.z, rhs@)),
        ensures
            r@ == (QuatV {
                w: mul_v(self@.w, rhs@),
                v: Vec3V {
                    x: mul_v(self@.v.x, rhs@),
                    y: mul_v(self@.v.y, rhs@),
                    z: mul_v(self@.v.z, rhs@),
                },
            }),
    {
        Quat { w: self.w.mul(rhs), v: self.v.scale(rhs) }
    }

    /// Componentwise quotient by one scalar.
    pub fn div_scalar(self, rhs: Scalar) -> (r: Quat)
        requires
            rhs@ != 0,
            fits(div_v(self@.w, rhs@)),
            fits(div_v(self@.v.x, rhs@)),
            fits(div_v(self@.v.y, rhs@)),
            fits(div_v(self@.v.z, rhs@)),
        ensures
            r@ == (QuatV {
                w: div_v(self@.w, rhs@),
                v: Vec3V {
                    x: div_v(self@.v.x, rhs@),
                    y: div_v(self@.v.y, rhs@),
                    z: div_v(self@.v.z, rhs@),
                },
            }),
    {
        Quat { w: self.w.div(rhs), v: self.v.div_scalar(rhs) }
    }

    /// Componentwise negation: the other representative of the same
    /// rotation.
    pub fn neg(self) -> (r: Quat)
        requires
            fits(-self@.w),
            fits(-self@.v.x),
            fits(-self@.v.y),
            fits(-self@.v.z),
        ensures
            r@ == (QuatV {
                w: -self@.w,
                v: Vec3V { x: -self@.v.x, y: -self@.v.y, z: -self@.v.z },
            }),
    {
        Quat { w: self.w.neg(), v: self.v.neg() }
    }
}

/// Products formed by the fused half-angle Euler builders are bounded.
pub proof fn lemma_quat_fused_products_fit(sp: int, cp: int, sh: int, ch: int, sb: int, cb: int)
    requires
        iabs(sp) <= TRIG_BOUND,
        iabs(cp) <= TRIG_BOUND,
        iabs(sh) <= TRIG_BOUND,
        iabs(ch) <= TRIG_BOUND,
        iabs(sb) <= TRIG_BOUND,
        iabs(cb) <= TRIG_BOUND,
    ensures
        iabs(mul_v(ch, cp)) <= 24000000000,
        iabs(mul_v(sh, sp)) <= 24000000000,
        iabs(mul_v(ch, sp)) <= 24000000000,
        iabs(mul_v(sh, cp)) <= 24000000000,
        iabs(mul_v(mul_v(ch, cp), cb)) <= 56000000000,
        iabs(mul_v(mul_v(ch, cp), sb)) <= 56000000000,
        iabs(mul_v(mul_v(sh, sp), cb)) <= 56000000000,
        iabs(mul_v(mul_v(sh, sp), sb)) <= 56000000000,
        iabs(mul_v(mul_v(ch, sp), cb)) <= 56000000000,
        iabs(mul_v(mul_v(ch, sp), sb)) <= 56000000000,
        iabs(mul_v(mul_v(sh, cp), cb)) <= 56000000000,
        iabs(mul_v(mul_v(sh, cp), sb)) <= 56000000000,
{
    lemma_mul_v_bound(ch, cp, 10000000000, 10000000000, 24000000000);
    lemma_mul_v_bound(sh, sp, 10000000000, 10000000000, 24000000000);
    lemma_mul_v_bound(ch, sp, 10000000000, 10000000000, 24000000000);
    lemma_mul_v_bound(sh, cp, 10000000000, 10000000000, 24000000000);
    lemma_mul_v_bound(mul_v(ch, cp), cb, 24000000000, 10000000000, 56000000000);
    lemma_mul_v_bound(mul_v(ch, cp), sb, 24000000000, 10000000000, 56000000000);
    lemma_mul_v_bound(mul_v(sh, sp), cb, 24000000000, 10000000000, 56000000000);
    lemma_mul_v_bound(mul_v(sh, sp), sb, 24000000000, 10000000000, 56000000000);
    lemma_mul_v_bound(mul_v(ch, sp), cb, 24000000000, 10000000000, 56000000000);
    lemma_mul_v_bound(mul_v(ch, sp), sb, 24000000000, 10000000000, 56000000000);
    lemma_mul_v_bound(mul_v(sh, cp), cb, 24000000000, 10000000000, 56000000000);
    lemma_mul_v_bound(mul_v(sh, cp), sb, 24000000000, 10000000000, 56000000000);
}

impl Quat {
    /// Quaternion from Euler angles in degrees, composed in the requested
    /// order.
    pub fn get_quat_flex_euler_deg(pitch: Scalar, heading: Scalar, bank: Scalar,
        order: RotationOrder) -> (r: Quat)
        ensures
            r@ == quat_flex_v(
                mul_v(pitch@, DEG_TO_RAD_RAW as int),
                mul_v(heading@, DEG_TO_RAD_RAW as int),
                mul_v(bank@, DEG_TO_RAD_RAW as int),
                order,
            ),
    {
        proof {
            lemma_deg_to_rad_fits(pitch@);
            lemma_deg_to_rad_fits(heading@);
            lemma_deg_to_rad_fits(bank@);
        }
        Quat::get_quat_flex_euler_rad(
            pitch.to_radians(),
            heading.to_radians(),
            bank.to_radians(),
            order,
        )
    }

    /// Quaternion from Euler angles in radians: the Hamilton product of the
    /// three elemental half-angle quaternions in the requested order.
    pub fn get_quat_flex_euler_rad(pitch: Scalar, heading: Scalar, bank: Scalar,
        order: RotationOrder) -> (r: Quat)
        ensures
            r@ == quat_flex_v(pitch@, heading@, bank@, order),
    {
        proof {
            lemma_half_fits(pitch@);
            lemma_half_fits(heading@);
            lemma_half_fits(bank@);
        }
        let two = Scalar::from_int(2);
        let hp = pitch.div(two);
        let hh = heading.div(two);
        let hb = bank.div(two);
        let qp = Quat { w: hp.cos(), v: Vec3 { x: hp.sin(), y: Scalar::zero(), z: Scalar::zero() } };
        let qh = Quat { w: hh.cos(), v: Vec3 { x: Scalar::zero(), y: hh.sin(), z: Scalar::zero() } };
        let qb = Quat { w: hb.cos(), v: Vec3 { x: Scalar::zero(), y: Scalar::zero(), z: hb.sin() } };
        proof {
            assert(qp@ == quat_pitch_v(pitch@));
            assert(qh@ == quat_heading_v(heading@));
            assert(qb@ == quat_bank_v(bank@));
        }
        match order {
            RotationOrder::PHB => {
                proof {
                    lemma_quat_triple_fits(qp@, qh@, qb@);
                }
                qp.mul_quat(qh).mul_quat(qb)
            },
            RotationOrder::PBH => {
                proof {
                    lemma_quat_triple_fits(qp@, qb@, qh@);
                }
                qp.mul_quat(qb).mul_quat(qh)
            },
            RotationOrder::HPB => {
                proof {
                    lemma_quat_triple_fits(qh@, qp@, qb@);
                }
                qh.mul_quat(qp).mul_quat(qb)
            },
            RotationOrder::HBP => {
                proof {
                    lemma_quat_triple_fits(qh@, qb@, qp@);
                }
                qh.mul_quat(qb).mul_quat(qp)
            },
            RotationOrder::BPH => {
                proof {
                    lemma_quat_triple_fits(qb@, qp@, qh@);
                }
                qb.mul_quat(qp).mul_quat(qh)
            },
            RotationOrder::BHP => {
                proof {
                    lemma_quat_triple_fits(qb@, qh@, qp@);
                }
                qb.mul_quat(qh).mul_quat(qp)
            },
        }
    }

    /// Quaternion from Euler angles in degrees, in the order heading,
    /// pitch, bank.
    pub fn get_quat_euler_obj_upr_deg(pitch: Scalar, heading: Scalar, bank: Scalar) -> (r: Quat)
        ensures
            r@ == quat_obj_upr_v(
                mul_v(pitch@, DEG_TO_RAD_RAW as int),
                mul_v(heading@, DEG_TO_RAD_RAW as int),
                mul_v(bank@, DEG_TO_RAD_RAW as int),
            ),
    {
        proof {
            lemma_deg_to_rad_fits(pitch@);
            lemma_deg_to_rad_fits(heading@);
            lemma_deg_to_rad_fits(bank@);
        }
        Quat::get_quat_euler_obj_upr_rad(pitch.to_radians(), heading.to_radians(), bank.to_radians())
    }

    /// Quaternion from Euler angles in radians, composed in the order
    /// heading, pitch, bank, as one fused closed form over the half angles.
    pub fn get_quat_euler_obj_upr_rad(pitch: Scalar, heading: Scalar, bank: Scalar) -> (r: Quat)
        ensures
            r@ == quat_obj_upr_v(pitch@, heading@, bank@),
    {
        proof {
            lemma_half_fits(pitch@);
            lemma_half_fits(heading@);
            lemma_half_fits(bank@);
        }
        let two = Scalar::from_int(2);
        let hp = pitch.div(two);
        let hh = heading.div(two);
        let hb = bank.div(two);
        let sp = hp.sin();
        let cp = hp.cos();
        let sh = hh.sin();
        let ch = hh.cos();
        let sb = hb.sin();
        let cb = hb.cos();
        proof {
            lemma_quat_fused_products_fit(sp@, cp@, sh@, ch@, sb@, cb@);
        }
        Quat {
            w: ch.mul(cp).mul(cb).add(sh.mul(sp).mul(sb)),
            v: Vec3 {
                x: ch.mul(sp).mul(cb).add(sh.mul(cp).mul(sb)),
                y: sh.mul(cp).mul(cb).sub(ch.mul(sp).mul(sb)),
                z: ch.mul(cp).mul(sb).sub(sh.mul(sp).mul(cb)),
            },
        }
    }

    /// Quaternion from Euler angles in degrees, in the order bank, pitch,
    /// heading.
    pub fn get_quat_euler_upr_obj_deg(pitch: Scalar, heading: Scalar, bank: Scalar) -> (r: Quat)
        ensures
            r@ == quat_upr_obj_v(
                mul_v(pitch@, DEG_TO_RAD_RAW as int),
                mul_v(heading@, DEG_TO_RAD_RAW as int),
                mul_v(bank@, DEG_TO_RAD_RAW as int),
            ),
    {
        proof {
            lemma_deg_to_rad_fits(pitch@);
            lemma_deg_to_rad_fits(heading@);
            lemma_deg_to_rad_fits(bank@);
        }
        Quat::get_quat_euler_upr_obj_rad(pitch.to_radians(), heading.to_radians(), bank.to_radians())
    }

    /// Quaternion from Euler angles in radians, composed in the order bank,
    /// pitch, heading, as one fused closed form over the half angles.
    pub fn get_quat_euler_upr_obj_rad(pitch: Scalar, heading: Scalar, bank: Scalar) -> (r: Quat)
        ensures
            r@ == quat_upr_obj_v(pitch@, heading@, bank@),
    {
        proof {
            lemma_half_fits(pitch@);
            lemma_half_fits(heading@);
            lemma_half_fits(bank@);
        }
        let two = Scalar::from_int(2);
        let hp = pitch.div(two);
        let hh = heading.div(two);
        let hb = bank.div(two);
        let sp = hp.sin();
        let cp = hp.cos();
        let sh = hh.sin();
        let ch = hh.cos();
        let sb = hb.sin();
        let cb = hb.cos();
        proof {
            lemma_quat_fused_products_fit(sp@, cp@, sh@, ch@, sb@, cb@);
        }
        Quat {
            w: ch.mul(cp).mul(cb).add(sh.mul(sp).mul(sb)),
            v: Vec3 {
                x: ch.mul(sp).mul(cb).neg().sub(sh.mul(cp).mul(sb)),
                y: ch.mul(sp).mul(sb).sub(sh.mul(cp).mul(cb)),
                z: sh.mul(sp).mul(cb).sub(ch.mul(cp).mul(sb)),
            },
        }
    }

    /// Euler angles, in degrees, read back from an object-to-upright
    /// quaternion.
    pub fn get_euler_angles_obj_upr_deg(&self) -> (r: Vec3)
        requires
            quat_bounded(self@, 8589934592),
        ensures
            r@ == (Vec3V {
                x: mul_v(quat_euler_obj_upr_v(self@).x, RAD_TO_DEG_RAW as int),
                y: mul_v(quat_euler_obj_upr_v(self@).y, RAD_TO_DEG_RAW as int),
                z: mul_v(quat_euler_obj_upr_v(self@).z, RAD_TO_DEG_RAW as int),
            }),
    {
        let e = self.get_euler_angles_obj_upr_rad();
        proof {
            lemma_mul_v_bound(e@.x, RAD_TO_DEG_RAW as int, 150000000000, 246083499208,
            9000000000000);
            lemma_mul_v_bound(e@.y, RAD_TO_DEG_RAW as int, 150000000000, 246083499208,
            9000000000000);
            lemma_mul_v_bound(e@.z, RAD_TO_DEG_RAW as int, 150000000000, 246083499208,
            9000000000000);
        }
        Vec3 { x: e.x.to_degrees(), y: e.y.to_degrees(), z: e.z.to_degrees() }
    }

    /// Euler angles, in radians, read back from an object-to-upright
    /// quaternion: pitch from the stored sine, heading and bank from
    /// quadrant-correct arctangents, bank pinned to zero in the gimbal-lock
    /// band.
    pub fn get_euler_angles_obj_upr_rad(&self) -> (r: Vec3)
        requires
            quat_bounded(self@, 8589934592),
        ensures
            r@ == quat_euler_obj_upr_v(self@),
            iabs(r@.x) <= 150000000000,
            iabs(r@.y) <= 150000000000,
            iabs(r@.z) <= 150000000000,
    {
        proof {
            lemma_quat_euler_products_fit(self@);
        }
        let min_two = Scalar::from_int(-2);
        let half = Scalar::from_raw(HALF_ONE_RAW);
        let sp = min_two.mul(self.v.y.mul(self.v.z).sub(self.w.mul(self.v.x)));
        if sp.raw() > ALMOST_ONE_RAW || sp.raw() < -ALMOST_ONE_RAW {
            Vec3 {
                x: Scalar::from_raw(HALF_PI_RAW).mul(sp),
                y: self.v.x.mul(self.v.z).neg().add(self.w.mul(self.v.y)).atan2(
                    half.sub(self.v.y.mul(self.v.y)).sub(self.v.z.mul(self.v.z)),
                ),
                z: Scalar::zero(),
            }
        } else {
            Vec3 {
                x: sp.asin(),
                y: self.v.x.mul(self.v.z).add(self.w.mul(self.v.y)).atan2(
                    half.sub(self.v.x.mul(self.v.x)).sub(self.v.y.mul(self.v.y)),
                ),
                z: self.v.x.mul(self.v.y).add(self.w.mul(self.v.z)).atan2(
                    half.sub(self.v.x.mul(self.v.x)).sub(self.v.z.mul(self.v.z)),
                ),
            }
        }
    }

    /// Euler angles, in degrees, read back from an upright-to-object
    /// quaternion.
    pub fn get_euler_angles_upr_obj_deg(self) -> (r: Vec3)
        requires
            quat_bounded(self@, 8589934592),
        ensures
            r@ == (Vec3V {
                x: mul_v(quat_euler_upr_obj_v(self@).x, RAD_TO_DEG_RAW as int),
                y: mul_v(quat_euler_upr_obj_v(self@).y, RAD_TO_DEG_RAW as int),
                z: mul_v(quat_euler_upr_obj_v(self@).z, RAD_TO_DEG_RAW as int),
            }),
    {
        let e = self.get_euler_angles_upr_obj_rad();
        proof {
            lemma_mul_v_bound(e@.x, RAD_TO_DEG_RAW as int, 150000000000, 246083499208,
            9000000000000);
            lemma_mul_v_bound(e@.y, RAD_TO_DEG_RAW as int, 150000000000, 246083499208,
            9000000000000);
            lemma_mul_v_bound(e@.z, RAD_TO_DEG_RAW as int, 150000000000, 246083499208,
            9000000000000);
        }
        Vec3 { x: e.x.to_degrees(), y: e.y.to_degrees(), z: e.z.to_degrees() }
    }

    /// Euler angles, in radians, read back from an upright-to-object
    /// quaternion, with the same gimbal-lock handling as the
    /// object-to-upright reading.
    pub fn get_euler_angles_upr_obj_rad(self) -> (r: Vec3)
        requires
            quat_bounded(self@, 8589934592),
        ensures
            r@ == quat_euler_upr_obj_v(self@),
            iabs(r@.x) <= 150000000000,
            iabs(r@.y) <= 150000000000,
            iabs(r@.z) <= 150000000000,
    {
        proof {
            lemma_quat_euler_products_fit(self@);
        }
        let min_two = Scalar::from_int(-2);
        let half = Scalar::from_raw(HALF_ONE_RAW);
        let sp = min_two.mul(self.v.y.mul(self.v.z).add(self.w.mul(self.v.x)));
        if sp.raw() > ALMOST_ONE_RAW || sp.raw() < -ALMOST_ONE_RAW {
            Vec3 {
                x: Scalar::from_raw(HALF_PI_RAW).mul(sp),
                y: self.v.x.mul(self.v.z).neg().sub(self.w.mul(self.v.y)).atan2(
                    half.sub(self.v.y.mul(self.v.y)).sub(self.v.z.mul(self.v.z)),
                ),
                z: Scalar::zero(),
            }
        } else {
            Vec3 {
                x: sp.asin(),
                y: self.v.x.mul(self.v.z).sub(self.w.mul(self.v.y)).atan2(
                    half.sub(self.v.x.mul(self.v.x)).sub(self.v.y.mul(self.v.y)),
                ),
                z: self.v.x.mul(self.v.y).sub(self.w.mul(self.v.z)).atan2(
                    half.sub(self.v.x.mul(self.v.x)).sub(self.v.z.mul(self.v.z)),
                ),
            }
        }
    }

    /// Rotation quaternion about the unit axis `n` by `theta` radians.
    pub fn get_quat_from_angle_axis(theta: Scalar, n: Vec3) -> (r: Quat)
        requires
            is_unit3_v(n@),
            iabs(n@.x) <= 8589934592,
            iabs(n@.y) <= 8589934592,
            iabs(n@.z) <= 8589934592,
        ensures
            r@ == quat_angle_axis_v(theta@, n@),
    {
        proof {
            lemma_mul_v_bound(theta@, HALF_ONE_RAW as int, 0x8000000000000000, 2147483648,
            0x4000000000000000);
        }
        let half_theta = theta.mul(Scalar::from_raw(HALF_ONE_RAW));
        let st = half_theta.sin();
        proof {
            lemma_mul_v_bound(n@.x, st@, 8589934592, 10000000000, 20000000000);
            lemma_mul_v_bound(n@.y, st@, 8589934592, 10000000000, 20000000000);
            lemma_mul_v_bound(n@.z, st@, 8589934592, 10000000000, 20000000000);
        }
        Quat { w: half_theta.cos(), v: n.scale(st) }
    }

    /// Rotation quaternion about `n` by `theta` radians, or the identity
    /// when the axis is shorter than the default tolerance.
    pub fn get_quat_from_angle_axis_safe(theta: Scalar, n: Vec3) -> (r: Quat)
        requires
            dot3_fits(n@, n@),
            iabs(n@.x) <= 1000000000000000000,
            iabs(n@.y) <= 1000000000000000000,
            iabs(n@.z) <= 1000000000000000000,
        ensures
            r@ == quat_angle_axis_safe_v(theta@, n@),
    {
        let magnitude = n.length();
        if magnitude.raw() > DEF_EPSILON_RAW {
            proof {
                lemma_mul_v_bound(theta@, HALF_ONE_RAW as int, 0x8000000000000000, 2147483648,
                0x4000000000000000);
            }
            let half_theta = theta.mul(Scalar::from_raw(HALF_ONE_RAW));
            let st = half_theta.sin();
            proof {
                lemma_mul_v_bound(n@.x, st@, 1000000000000000000, 10000000000, 2400000000000000000);
                lemma_mul_v_bound(n@.y, st@, 1000000000000000000, 10000000000, 2400000000000000000);
                lemma_mul_v_bound(n@.z, st@, 1000000000000000000, 10000000000, 2400000000000000000);
            }
            Quat { w: half_theta.cos(), v: n.scale(st) }
        } else {
            Quat::identity()
        }
    }

    /// The rotation axis and angle stored in the quaternion: the vector
    /// part rescaled, and twice the real part.
    pub fn get_angle_axis_from_quat(&self) -> (r: (Vec3, Scalar))
        requires
            -(SCALE as int) <= self@.w <= SCALE as int,
            dot3_fits(self@.v, self@.v),
            dot3_v(self@.v, self@.v) != 0,
            quat_bounded(self@, 8589934592),
        ensures
            r.0@ == angle_axis_from_quat_v(self@).0,
            r.1@ == angle_axis_from_quat_v(self@).1,
    {
        proof {
            lemma_mul_v_bound(self@.w, self@.w, 4294967296, 4294967296, 4294967296);
            lemma_square_nonneg(self@.w);
        }
        let d = Scalar::one().sub(self.w.mul(self.w));
        let s = d.sqrt();
        let theta = self.w.add(self.w);
        if s.raw() < AXIS_EPS_RAW {
            let len = self.v.length();
            proof {
                lemma_square_nonneg(self@.v.x);
                lemma_square_nonneg(self@.v.y);
                lemma_square_nonneg(self@.v.z);
                crate::scalar::lemma_sqrt_pos(dot3_v(self@.v, self@.v), len@);
                lemma_normalized_div_fits(self@.v.x, dot3_v(self@.v, self@.v), len@);
                lemma_normalized_div_fits(self@.v.y, dot3_v(self@.v, self@.v), len@);
                lemma_normalized_div_fits(self@.v.z, dot3_v(self@.v, self@.v), len@);
            }
            (self.v.normalized(), theta)
        } else {
            proof {
                lemma_div_v_bound(self@.v.x, s@, 8589934592, 429497, 90000000000000);
                lemma_div_v_bound(self@.v.y, s@, 8589934592, 429497, 90000000000000);
                lemma_div_v_bound(self@.v.z, s@, 8589934592, 429497, 90000000000000);
            }
            (self.v.div_scalar(s), theta)
        }
    }

    /// Spherical interpolation from `self` at 0 to `other` at 1, taking the
    /// shorter arc, with a linear fallback when the rotations nearly
    /// coincide.
    pub fn slerp(self, other: Quat, t: Scalar) -> (r: Quat)
        requires
            qdot_fits(self@, other@),
            quat_bounded(self@, 8589934592),
            quat_bounded(other@, 8589934592),
            0 <= t@ <= SCALE as int,
        ensures
            r@ == slerp_v(self@, other@, t@),
    {
        proof {
            lemma_quat_dot_bound(self@, other@);
        }
        let mut cos_omega = self.dot(other);
        let q0 = self;
        let mut q1 = other;
        if cos_omega.raw() < 0 {
            q1 = other.neg();
            cos_omega = cos_omega.neg();
        }
        if cos_omega.raw() > ALMOST_ONE_RAW {
            let k0 = Scalar::one().sub(t);
            let k1 = t;
            proof {
                lemma_blend_fits(q0@, q1@, k0@, k1@, 4294967296);
            }
            Quat {
                w: q0.w.mul(k0).add(q1.w.mul(k1)),
                v: Vec3 {
                    x: q0.v.x.mul(k0).add(q1.v.x.mul(k1)),
                    y: q0.v.y.mul(k0).add(q1.v.y.mul(k1)),
                    z: q0.v.z.mul(k0).add(q1.v.z.mul(k1)),
                },
            }
        } else {
            proof {
                lemma_mul_v_bound(cos_omega@, cos_omega@, 4294537799, 4294537799, 4294200000);
                lemma_square_nonneg(cos_omega@);
            }
            let d = Scalar::one().sub(cos_omega.mul(cos_omega));
            let sin_omega = d.sqrt();
            proof {
                assert(sin_omega@ >= 50000000) by (nonlinear_arith)
                    requires
                        (sin_omega@ + 1) * (sin_omega@ + 1) > 3295000000000000,
                        sin_omega@ >= 0,
                ;
                lemma_div_v_bound(SCALE as int, sin_omega@, 4294967296, 50000000, 370000000000);
            }
            let omega = sin_omega.atan2(cos_omega);
            let one_over_sin_omega = Scalar::one().div(sin_omega);
            proof {
                lemma_mul_v_bound((SCALE as int) - t@, omega@, 4294967296, 20000000000,
                20000000000);
                lemma_mul_v_bound(t@, omega@, 4294967296, 20000000000, 20000000000);
            }
            let a0 = Scalar::one().sub(t).mul(omega);
            let a1 = t.mul(omega);
            let s0 = a0.sin();
            let s1 = a1.sin();
            proof {
                lemma_mul_v_bound(s0@, one_over_sin_omega@, 10000000000, 370000000000,
                870000000000);
                lemma_mul_v_bound(s1@, one_over_sin_omega@, 10000000000, 370000000000,
                870000000000);
            }
            let k0 = s0.mul(one_over_sin_omega);
            let k1 = s1.mul(one_over_sin_omega);
            proof {
                lemma_blend_fits(q0@, q1@, k0@, k1@, 870000000000);
            }
            Quat {
                w: q0.w.mul(k0).add(q1.w.mul(k1)),
                v: Vec3 {
                    x: q0.v.x.mul(k0).add(q1.v.x.mul(k1)),
                    y: q0.v.y.mul(k0).add(q1.v.y.mul(k1)),
                    z: q0.v.z.mul(k0).add(q1.v.z.mul(k1)),
                },
            }
        }
    }

    /// Normalized linear interpolation from `self` at 0 to `other` at 1,
    /// taking the shorter arc.
    pub fn lerp(self, other: Quat, t: Scalar) -> (r: Quat)
        requires
            qdot_fits(self@, other@),
            quat_bounded(self@, 8589934592),
            quat_bounded(other@, 8589934592),
            0 <= t@ <= SCALE as int,
            qdot_v(lerp_blend_v(self@, other@, t@), lerp_blend_v(self@, other@, t@)) != 0,
        ensures
            r@ == lerp_v(self@, other@, t@),
    {
        proof {
            lemma_lerp_blend_fits(self@, other@, t@);
        }
        let d = self.dot(other);
        let blended = if d.raw() < 0 {
            Quat {
                w: self.w.add(other.w.neg().sub(self.w).mul(t)),
                v: Vec3 {
                    x: self.v.x.add(other.v.x.neg().sub(self.v.x).mul(t)),
                    y: self.v.y.add(other.v.y.neg().sub(self.v.y).mul(t)),
                    z: self.v.z.add(other.v.z.neg().sub(self.v.z).mul(t)),
                },
            }
        } else {
            Quat {
                w: self.w.add(other.w.sub(self.w).mul(t)),
                v: Vec3 {
                    x: self.v.x.add(other.v.x.sub(self.v.x).mul(t)),
                    y: self.v.y.add(other.v.y.sub(self.v.y).mul(t)),
                    z: self.v.z.add(other.v.z.sub(self.v.z).mul(t)),
                },
            }
        };
        blended.normalized()
    }

    /// The quaternion raised to a scalar exponent: the rotation angle
    /// scaled, except near the identity where the quaternion is kept.
    pub fn pow(&self, exponent: Scalar) -> (r: Quat)
        requires
            quat_pow_fits(self@, exponent@),
        ensures
            r@ == quat_pow_v(self@, exponent@),
    {
        if self.w.raw() < ALMOST_ONE_RAW && self.w.raw() > -ALMOST_ONE_RAW {
            let alpha = self.w.acos();
            let new_alpha = alpha.mul(exponent);
            let scalar = new_alpha.sin().div(alpha.sin());
            Quat { w: new_alpha.cos(), v: self.v.scale(scalar) }
        } else {
            Quat { w: self.w, v: self.v }
        }
    }

    /// Rotates the vector by the sandwich product with the inverse, as a
    /// rotation quaternion does; cross-validates against applying the
    /// transposed rotation matrix built from the quaternion.
    pub fn rotate_vec(self, rhs: Vec3) -> (r: Vec3)
        requires
            quat_bounded(self@, 8589934592),
            iabs(rhs@.x) <= 8589934592,
            iabs(rhs@.y) <= 8589934592,
            iabs(rhs@.z) <= 8589934592,
            qdot_v(self@, self@) >= HALF_ONE_RAW,
        ensures
            r@ == quat_rotate_v(self@, rhs@),
    {
        proof {
            lemma_quat_dot_bound(self@, self@);
            lemma_div_v_bound(self@.w, qdot_v(self@, self@), 8589934592, 2147483648, 17179869184);
            lemma_div_v_bound(
                -self@.v.x,
                qdot_v(self@, self@),
                8589934592,
                2147483648,
                17179869184,
            );
            lemma_div_v_bound(
                -self@.v.y,
                qdot_v(self@, self@),
                8589934592,
                2147483648,
                17179869184,
            );
            lemma_div_v_bound(
                -self@.v.z,
                qdot_v(self@, self@),
                8589934592,
                2147483648,
                17179869184,
            );
        }
        let p = Quat { w: Scalar::zero(), v: rhs };
        let inv = self.inverse();
        proof {
            lemma_quat_mul_bounded(self@, p@, 8589934592, 8589934592, 17179869184);
            lemma_quat_mul_bounded(
                quat_mul_v(self@, p@),
                inv@,
                68719476736,
                17179869184,
                274877906944,
            );
        }
        let ps = self.mul_quat(p).mul_quat(inv);
        ps.v
    }

    /// Composes `self` in place with a rotation about the unit axis `n` by
    /// `theta` radians.
    pub fn rotate_around(&mut self, theta: Scalar, n: Vec3)
        requires
            is_unit3_v(n@),
            iabs(n@.x) <= 8589934592,
            iabs(n@.y) <= 8589934592,
            iabs(n@.z) <= 8589934592,
            quat_mul_fits(old(self)@, quat_angle_axis_v(theta@, n@)),
        ensures
            final(self)@ == quat_mul_v(old(self)@, quat_angle_axis_v(theta@, n@)),
    {
        let m = Quat::get_quat_from_angle_axis(theta, n);
        *self = (*self).mul_quat(m);
    }

    /// Quaternion read from a rotation matrix by the Shepperd branch on the
    /// largest squared component.
    pub fn from_mat3(m: Mat3) -> (r: Quat)
        requires
            mat3_bounded(m@, 8589934592),
        ensures
            r@ == quat_from_mat3_v(m@),
    {
        let four_w_sq_m_1 = m.r0.x.add(m.r1.y).add(m.r2.z);
        let four_x_sq_m_1 = m.r0.x.sub(m.r1.y).sub(m.r2.z);
        let four_y_sq_m_1 = m.r0.x.neg().add(m.r1.y).sub(m.r2.z);
        let four_z_sq_m_1 = m.r0.x.neg().sub(m.r1.y).add(m.r2.z);
        let mut biggest_index: usize = 0;
        let mut four_biggest_sq_m_1 = four_w_sq_m_1;
        if four_x_sq_m_1.raw() > four_biggest_sq_m_1.raw() {
            four_biggest_sq_m_1 = four_x_sq_m_1;
            biggest_index = 1;
        }
        if four_y_sq_m_1.raw() > four_biggest_sq_m_1.raw() {
            four_biggest_sq_m_1 = four_y_sq_m_1;
            biggest_index = 2;
        }
        if four_z_sq_m_1.raw() > four_biggest_sq_m_1.raw() {
            four_biggest_sq_m_1 = four_z_sq_m_1;
            biggest_index = 3;
        }
        let root = four_biggest_sq_m_1.add(Scalar::one()).sqrt();
        proof {
            assert(root@ >= SCALE) by (nonlinear_arith)
                requires
                    (root@ + 1) * (root@ + 1) > (four_biggest_sq_m_1@ + SCALE) * (SCALE as int),
                    four_biggest_sq_m_1@ >= 0,
                    root@ >= 0,
            ;
            assert(root@ <= 12000000000) by (nonlinear_arith)
                requires
                    root@ * root@ <= (four_biggest_sq_m_1@ + SCALE) * (SCALE as int),
                    four_biggest_sq_m_1@ + SCALE <= 30064771072,
                    root@ >= 0,
            ;
            lemma_mul_v_bound(root@, HALF_ONE_RAW as int, 12000000000, 2147483648, 6000000000);
            lemma_half_of_root_large(root@);
        }
        let biggest_val = root.mul(Scalar::from_raw(HALF_ONE_RAW));
        proof {
            lemma_div_v_bound(QUARTER_ONE_RAW as int, biggest_val@, 1073741824, 2147483648,
            2147483648);
        }
        let mult = Scalar::from_raw(QUARTER_ONE_RAW).div(biggest_val);
        proof {
            lemma_shepperd_products_fit(m@, mult@);
        }
        if biggest_index == 0 {
            Quat {
                w: biggest_val,
                v: Vec3 {
                    x: m.r1.z.sub(m.r2.y).mul(mult),
                    y: m.r2.x.sub(m.r0.z).mul(mult),
                    z: m.r0.y.sub(m.r1.x).mul(mult),
                },
            }
        } else if biggest_index == 1 {
            Quat {
                w: m.r1.z.sub(m.r2.y).mul(mult),
                v: Vec3 {
                    x: biggest_val,
                    y: m.r0.y.add(m.r1.x).mul(mult),
                    z: m.r2.x.add(m.r0.z).mul(mult),
                },
            }
        } else if biggest_index == 2 {
            Quat {
                w: m.r2.x.sub(m.r0.z).mul(mult),
                v: Vec3 {
                    x: m.r0.y.add(m.r1.x).mul(mult),
                    y: biggest_val,
                    z: m.r2.y.add(m.r1.z).mul(mult),
                },
            }
        } else {
            Quat {
                w: m.r0.y.sub(m.r1.x).mul(mult),
                v: Vec3 {
                    x: m.r2.x.add(m.r0.z).mul(mult),
                    y: m.r1.z.add(m.r2.y).mul(mult),
                    z: biggest_val,
                },
            }
        }
    }
}

impl Mat3 {
    /// Rotation matrix built from a quaternion, row by row.
    pub fn from_quat(q: Quat) -> (r: Mat3)
        requires
            quat_bounded(q@, 8589934592),
        ensures
            r@ == mat3_from_quat_v(q@),
    {
        proof {
            lemma_mat3_from_quat_products_fit(q@);
        }
        let two = Scalar::from_raw(TWO_ONE_RAW);
        let x2 = q.v.x.mul(q.v.x);
        let y2 = q.v.y.mul(q.v.y);
        let z2 = q.v.z.mul(q.v.z);
        Mat3 {
            r0: Vec3 {
                x: Scalar::one().sub(two.mul(y2.add(z2))),
                y: two.mul(q.v.x.mul(q.v.y).add(q.w.mul(q.v.z))),
                z: two.mul(q.v.x.mul(q.v.z).sub(q.w.mul(q.v.y))),
            },
            r1: Vec3 {
                x: two.mul(q.v.x.mul(q.v.y).sub(q.w.mul(q.v.z))),
                y: Scalar::one().sub(two.mul(x2.add(z2))),
                z: two.mul(q.v.y.mul(q.v.z).add(q.w.mul(q.v.x))),
            },
            r2: Vec3 {
                x: two.mul(q.v.x.mul(q.v.z).add(q.w.mul(q.v.y))),
                y: two.mul(q.v.y.mul(q.v.z).sub(q.w.mul(q.v.x))),
                z: Scalar::one().sub(two.mul(x2.add(y2))),
            },
        }
    }
}

/// Halving any representable raw value never overflows.
pub proof fn lemma_half_fits(x: int)
    requires
        fits(x),
    ensures
        fits(div_v(x, TWO_ONE_RAW as int)),
{
    lemma_div_v_bound(x, TWO_ONE_RAW as int, 0x8000000000000000, 8589934592, 0x4000000000000000);
}

/// Two Hamilton products of elemental half-angle quaternions stay far
/// inside the representable range.
pub proof fn lemma_quat_triple_fits(a: QuatV, b: QuatV, c: QuatV)
    requires
        quat_bounded(a, TRIG_BOUND as int),
        quat_bounded(b, TRIG_BOUND as int),
        quat_bounded(c, TRIG_BOUND as int),
    ensures
        quat_mul_fits(a, b),
        quat_mul_fits(quat_mul_v(a, b), c),
{
    lemma_quat_mul_bounded(a, b, 10000000000, 10000000000, 24000000000);
    lemma_quat_mul_bounded(quat_mul_v(a, b), c, 96000000000, 10000000000, 224000000000);
}

/// The four-component dot product of bounded quaternions is bounded, and
/// none of its intermediates overflows.
pub proof fn lemma_quat_dot_bound(a: QuatV, b: QuatV)
    requires
        quat_bounded(a, 8589934592),
        quat_bounded(b, 8589934592),
    ensures
        iabs(qdot_v(a, b)) <= 68719476736,
        qdot_fits(a, b),
{
    lemma_mul_v_bound(a.w, b.w, 8589934592, 8589934592, 17179869184);
    lemma_mul_v_bound(a.v.x, b.v.x, 8589934592, 8589934592, 17179869184);
    lemma_mul_v_bound(a.v.y, b.v.y, 8589934592, 8589934592, 17179869184);
    lemma_mul_v_bound(a.v.z, b.v.z, 8589934592, 8589934592, 17179869184);
}

/// Blending bounded quaternions with bounded weights never overflows.
pub proof fn lemma_blend_fits(a: QuatV, b: QuatV, k0: int, k1: int, kb: int)
    requires
        quat_bounded(a, 8589934592),
        quat_bounded(b, 8589934592),
        iabs(k0) <= kb,
        iabs(k1) <= kb,
        0 <= kb <= 870000000000,
    ensures
        fits(mul_v(a.w, k0)),
        fits(mul_v(a.v.x, k0)),
        fits(mul_v(a.v.y, k0)),
        fits(mul_v(a.v.z, k0)),
        fits(mul_v(b.w, k1)),
        fits(mul_v(b.v.x, k1)),
        fits(mul_v(b.v.y, k1)),
        fits(mul_v(b.v.z, k1)),
        fits(mul_v(a.w, k0) + mul_v(b.w, k1)),
        fits(mul_v(a.v.x, k0) + mul_v(b.v.x, k1)),
        fits(mul_v(a.v.y, k0) + mul_v(b.v.y, k1)),
        fits(mul_v(a.v.z, k0) + mul_v(b.v.z, k1)),
{
    lemma_mul_v_bound(a.w, k0, 8589934592, 870000000000, 1800000000000);
    lemma_mul_v_bound(a.v.x, k0, 8589934592, 870000000000, 1800000000000);
    lemma_mul_v_bound(a.v.y, k0, 8589934592, 870000000000, 1800000000000);
    lemma_mul_v_bound(a.v.z, k0, 8589934592, 870000000000, 1800000000000);
    lemma_mul_v_bound(b.w, k1, 8589934592, 870000000000, 1800000000000);
    lemma_mul_v_bound(b.v.x, k1, 8589934592, 870000000000, 1800000000000);
    lemma_mul_v_bound(b.v.y, k1, 8589934592, 870000000000, 1800000000000);
    lemma_mul_v_bound(b.v.z, k1, 8589934592, 870000000000, 1800000000000);
}

/// All intermediates of the linear-interpolation blend are representable.
pub proof fn lemma_lerp_blend_fits(a: QuatV, b: QuatV, t: int)
    requires
        quat_bounded(a, 8589934592),
        quat_bounded(b, 8589934592),
        0 <= t <= SCALE as int,
    ensures
        iabs(mul_v(-b.w - a.w, t)) <= 17179869184,
        iabs(mul_v(-b.v.x - a.v.x, t)) <= 17179869184,
        iabs(mul_v(-b.v.y - a.v.y, t)) <= 17179869184,
        iabs(mul_v(-b.v.z - a.v.z, t)) <= 17179869184,
        iabs(mul_v(b.w - a.w, t)) <= 17179869184,
        iabs(mul_v(b.v.x - a.v.x, t)) <= 17179869184,
        iabs(mul_v(b.v.y - a.v.y, t)) <= 17179869184,
        iabs(mul_v(b.v.z - a.v.z, t)) <= 17179869184,
        qdot_fits(lerp_blend_v(a, b, t), lerp_blend_v(a, b, t)),
{
    lemma_mul_v_bound(-b.w - a.w, t, 17179869184, 4294967296, 17179869184);
    lemma_mul_v_bound(-b.v.x - a.v.x, t, 17179869184, 4294967296, 17179869184);
    lemma_mul_v_bound(-b.v.y - a.v.y, t, 17179869184, 4294967296, 17179869184);
    lemma_mul_v_bound(-b.v.z - a.v.z, t, 17179869184, 4294967296, 17179869184);
    lemma_mul_v_bound(b.w - a.w, t, 17179869184, 4294967296, 17179869184);
    lemma_mul_v_bound(b.v.x - a.v.x, t, 17179869184, 4294967296, 17179869184);
    lemma_mul_v_bound(b.v.y - a.v.y, t, 17179869184, 4294967296, 17179869184);
    lemma_mul_v_bound(b.v.z - a.v.z, t, 17179869184, 4294967296, 17179869184);
    let l = lerp_blend_v(a, b, t);
    lemma_mul_v_bound(l.w, l.w, 25769803776, 25769803776, 155000000000);
    lemma_mul_v_bound(l.v.x, l.v.x, 25769803776, 25769803776, 155000000000);
    lemma_mul_v_bound(l.v.y, l.v.y, 25769803776, 25769803776, 155000000000);
    lemma_mul_v_bound(l.v.z, l.v.z, 25769803776, 25769803776, 155000000000);
}

/// The products that the Euler readings form from a bounded quaternion are
/// all representable.
pub proof fn lemma_quat_euler_products_fit(q: QuatV)
    requires
        quat_bounded(q, 8589934592),
    ensures
        iabs(mul_v(q.v.y, q.v.z)) <= 17179869184,
        iabs(mul_v(q.w, q.v.x)) <= 17179869184,
        iabs(mul_v(q.v.x, q.v.z)) <= 17179869184,
        iabs(mul_v(q.w, q.v.y)) <= 17179869184,
        iabs(mul_v(q.v.x, q.v.y)) <= 17179869184,
        iabs(mul_v(q.w, q.v.z)) <= 17179869184,
        iabs(mul_v(q.v.x, q.v.x)) <= 17179869184,
        iabs(mul_v(q.v.y, q.v.y)) <= 17179869184,
        iabs(mul_v(q.v.z, q.v.z)) <= 17179869184,
        iabs(mul_v(-(TWO_ONE_RAW as int), mul_v(q.v.y, q.v.z) - mul_v(q.w, q.v.x))) <= 68719476736,
        iabs(mul_v(-(TWO_ONE_RAW as int), mul_v(q.v.y, q.v.z) + mul_v(q.w, q.v.x))) <= 68719476736,
        iabs(mul_v(HALF_PI_RAW as int, mul_v(-(TWO_ONE_RAW as int), mul_v(q.v.y, q.v.z) - mul_v(
        q.w, q.v.x)))) <= 110000000000,
        iabs(mul_v(HALF_PI_RAW as int, mul_v(-(TWO_ONE_RAW as int), mul_v(q.v.y, q.v.z) + mul_v(
        q.w, q.v.x)))) <= 110000000000,
{
    lemma_mul_v_bound(q.v.y, q.v.z, 8589934592, 8589934592, 17179869184);
    lemma_mul_v_bound(q.w, q.v.x, 8589934592, 8589934592, 17179869184);
    lemma_mul_v_bound(q.v.x, q.v.z, 8589934592, 8589934592, 17179869184);
    lemma_mul_v_bound(q.w, q.v.y, 8589934592, 8589934592, 17179869184);
    lemma_mul_v_bound(q.v.x, q.v.y, 8589934592, 8589934592, 17179869184);
    lemma_mul_v_bound(q.w, q.v.z, 8589934592, 8589934592, 17179869184);
    lemma_mul_v_bound(q.v.x, q.v.x, 8589934592, 8589934592, 17179869184);
    lemma_mul_v_bound(q.v.y, q.v.y, 8589934592, 8589934592, 17179869184);
    lemma_mul_v_bound(q.v.z, q.v.z, 8589934592, 8589934592, 17179869184);
    lemma_mul_v_bound(-(TWO_ONE_RAW as int), mul_v(q.v.y, q.v.z) - mul_v(q.w, q.v.x), 8589934592,
    34359738368, 68719476736);
    lemma_mul_v_bound(-(TWO_ONE_RAW as int), mul_v(q.v.y, q.v.z) + mul_v(q.w, q.v.x), 8589934592,
    34359738368, 68719476736);
    lemma_mul_v_bound(HALF_PI_RAW as int, mul_v(-(TWO_ONE_RAW as int), mul_v(q.v.y, q.v.z) - mul_v(
    q.w, q.v.x)), 6746518852, 68719476736, 110000000000);
    lemma_mul_v_bound(HALF_PI_RAW as int, mul_v(-(TWO_ONE_RAW as int), mul_v(q.v.y, q.v.z) + mul_v(
    q.w, q.v.x)), 6746518852, 68719476736, 110000000000);
}

/// Half of a raw root at least one is at least half of one.
pub proof fn lemma_half_of_root_large(r: int)
    requires
        r >= SCALE,
    ensures
        mul_v(r, HALF_ONE_RAW as int) >= HALF_ONE_RAW,
{
    crate::scalar::lemma_abs_mul(r, HALF_ONE_RAW as int);
    vstd::arithmetic::mul::lemma_mul_inequality(SCALE as int, r, HALF_ONE_RAW as int);
    vstd::arithmetic::div_mod::lemma_div_is_ordered(
        (SCALE as int) * (HALF_ONE_RAW as int),
        r * (HALF_ONE_RAW as int),
        SCALE as int,
    );
}

/// The off-diagonal differences and sums scaled by the Shepperd factor are
/// representable.
pub proof fn lemma_shepperd_products_fit(m: Mat3V, mult: int)
    requires
        mat3_bounded(m, 8589934592),
        iabs(mult) <= 2147483648,
    ensures
        iabs(mul_v(m.r1.z - m.r2.y, mult)) <= 8589934592,
        iabs(mul_v(m.r2.x - m.r0.z, mult)) <= 8589934592,
        iabs(mul_v(m.r0.y - m.r1.x, mult)) <= 8589934592,
        iabs(mul_v(m.r0.y + m.r1.x, mult)) <= 8589934592,
        iabs(mul_v(m.r2.x + m.r0.z, mult)) <= 8589934592,
        iabs(mul_v(m.r2.y + m.r1.z, mult)) <= 8589934592,
        iabs(mul_v(m.r1.z + m.r2.y, mult)) <= 8589934592,
{
    lemma_mul_v_bound(m.r1.z - m.r2.y, mult, 17179869184, 2147483648, 8589934592);
    lemma_mul_v_bound(m.r2.x - m.r0.z, mult, 17179869184, 2147483648, 8589934592);
    lemma_mul_v_bound(m.r0.y - m.r1.x, mult, 17179869184, 2147483648, 8589934592);
    lemma_mul_v_bound(m.r0.y + m.r1.x, mult, 17179869184, 2147483648, 8589934592);
    lemma_mul_v_bound(m.r2.x + m.r0.z, mult, 17179869184, 2147483648, 8589934592);
    lemma_mul_v_bound(m.r2.y + m.r1.z, mult, 17179869184, 2147483648, 8589934592);
    lemma_mul_v_bound(m.r1.z + m.r2.y, mult, 17179869184, 2147483648, 8589934592);
}

/// The products that the quaternion-to-matrix conversion forms are all
/// representable.
pub proof fn lemma_mat3_from_quat_products_fit(q: QuatV)
    requires
        quat_bounded(q, 8589934592),
    ensures
        iabs(mul_v(q.v.x, q.v.x)) <= 17179869184,
        iabs(mul_v(q.v.y, q.v.y)) <= 17179869184,
        iabs(mul_v(q.v.z, q.v.z)) <= 17179869184,
        iabs(mul_v(q.v.x, q.v.y)) <= 17179869184,
        iabs(mul_v(q.v.x, q.v.z)) <= 17179869184,
        iabs(mul_v(q.v.y, q.v.z)) <= 17179869184,
        iabs(mul_v(q.w, q.v.x)) <= 17179869184,
        iabs(mul_v(q.w, q.v.y)) <= 17179869184,
        iabs(mul_v(q.w, q.v.z)) <= 17179869184,
        iabs(mul_v(TWO_ONE_RAW as int, mul_v(q.v.y, q.v.y) + mul_v(q.v.z, q.v.z)))
            <= 68719476736,
        iabs(mul_v(TWO_ONE_RAW as int, mul_v(q.v.x, q.v.x) + mul_v(q.v.z, q.v.z)))
            <= 68719476736,
        iabs(mul_v(TWO_ONE_RAW as int, mul_v(q.v.x, q.v.x) + mul_v(q.v.y, q.v.y)))
            <= 68719476736,
        iabs(mul_v(TWO_ONE_RAW as int, mul_v(q.v.x, q.v.y) + mul_v(q.w, q.v.z))) <= 68719476736,
        iabs(mul_v(TWO_ONE_RAW as int, mul_v(q.v.x, q.v.y) - mul_v(q.w, q.v.z))) <= 68719476736,
        iabs(mul_v(TWO_ONE_RAW as int, mul_v(q.v.x, q.v.z) + mul_v(q.w, q.v.y))) <= 68719476736,
        iabs(mul_v(TWO_ONE_RAW as int, mul_v(q.v.x, q.v.z) - mul_v(q.w, q.v.y))) <= 68719476736,
        iabs(mul_v(TWO_ONE_RAW as int, mul_v(q.v.y, q.v.z) + mul_v(q.w, q.v.x))) <= 68719476736,
        iabs(mul_v(TWO_ONE_RAW as int, mul_v(q.v.y, q.v.z) - mul_v(q.w, q.v.x))) <= 68719476736,
{
    lemma_mul_v_bound(q.v.x, q.v.x, 8589934592, 8589934592, 17179869184);
    lemma_mul_v_bound(q.v.y, q.v.y, 8589934592, 8589934592, 17179869184);
    lemma_mul_v_bound(q.v.z, q.v.z, 8589934592, 8589934592, 17179869184);
    lemma_mul_v_bound(q.v.x, q.v.y, 8589934592, 8589934592, 17179869184);
    lemma_mul_v_bound(q.v.x, q.v.z, 8589934592, 8589934592, 17179869184);
    lemma_mul_v_bound(q.v.y, q.v.z, 8589934592, 8589934592, 17179869184);
    lemma_mul_v_bound(q.w, q.v.x, 8589934592, 8589934592, 17179869184);
    lemma_mul_v_bound(q.w, q.v.y, 8589934592, 8589934592, 17179869184);
    lemma_mul_v_bound(q.w, q.v.z, 8589934592, 8589934592, 17179869184);
    lemma_mul_v_bound(TWO_ONE_RAW as int, mul_v(q.v.y, q.v.y) + mul_v(q.v.z, q.v.z), 8589934592,
    34359738368, 68719476736);
    lemma_mul_v_bound(TWO_ONE_RAW as int, mul_v(q.v.x, q.v.x) + mul_v(q.v.z, q.v.z), 8589934592,
    34359738368, 68719476736);
    lemma_mul_v_bound(TWO_ONE_RAW as int, mul_v(q.v.x, q.v.x) + mul_v(q.v.y, q.v.y), 8589934592,
    34359738368, 68719476736);
    lemma_mul_v_bound(TWO_ONE_RAW as int, mul_v(q.v.x, q.v.y) + mul_v(q.w, q.v.z), 8589934592,
    34359738368, 68719476736);
    lemma_mul_v_bound(TWO_ONE_RAW as int, mul_v(q.v.x, q.v.y) - mul_v(q.w, q.v.z), 8589934592,
    34359738368, 68719476736);
    lemma_mul_v_bound(TWO_ONE_RAW as int, mul_v(q.v.x, q.v.z) + mul_v(q.w, q.v.y), 8589934592,
    34359738368, 68719476736);
    lemma_mul_v_bound(TWO_ONE_RAW as int, mul_v(q.v.x, q.v.z) - mul_v(q.w, q.v.y), 8589934592,
    34359738368, 68719476736);
    lemma_mul_v_bound(TWO_ONE_RAW as int, mul_v(q.v.y, q.v.z) + mul_v(q.w, q.v.x), 8589934592,
    34359738368, 68719476736);
    lemma_mul_v_bound(TWO_ONE_RAW as int, mul_v(q.v.y, q.v.z) - mul_v(q.w, q.v.x), 8589934592,
    34359738368, 68719476736);
}

/// Composing any quaternion with its conjugate gives a purely real
/// quaternion whose real part is exactly the squared magnitude: the vector
/// part cancels term by term, with no rounding residue.
pub proof fn lemma_quat_times_conjugate_is_real(q: QuatV)
    ensures
        quat_mul_v(q, quat_conj_v(q)) == (QuatV {
            w: qdot_v(q, q),
            v: Vec3V { x: 0, y: 0, z: 0 },
        }),
{
    crate::scalar::lemma_mul_v_neg(q.v.x, q.v.x);
    crate::scalar::lemma_mul_v_neg(q.v.y, q.v.y);
    crate::scalar::lemma_mul_v_neg(q.v.z, q.v.z);
    crate::scalar::lemma_mul_v_neg(q.v.x, q.w);
    crate::scalar::lemma_mul_v_neg(q.v.y, q.w);
    crate::scalar::lemma_mul_v_neg(q.v.z, q.w);
    crate::scalar::lemma_mul_v_neg(q.v.y, q.v.z);
    crate::scalar::lemma_mul_v_neg(q.v.z, q.v.x);
    crate::scalar::lemma_mul_v_neg(q.v.x, q.v.y);
    crate::scalar::lemma_mul_v_neg(q.v.z, q.v.y);
    crate::scalar::lemma_mul_v_neg(q.v.x, q.v.z);
    crate::scalar::lemma_mul_v_neg(q.v.y, q.v.x);
    crate::scalar::lemma_mul_v_comm(q.v.z, q.v.y);
    crate::scalar::lemma_mul_v_comm(q.v.x, q.v.z);
    crate::scalar::lemma_mul_v_comm(q.v.y, q.v.x);
    crate::scalar::lemma_mul_v_comm(q.w, q.w);
}

/// At the interpolation endpoints, spherical interpolation of two nearly
/// coincident rotations returns its inputs exactly: the first quaternion at
/// zero, and at one the second quaternion or its negation (the same
/// rotation under the double cover), according to the shorter-arc flip.
pub proof fn lemma_slerp_endpoints(a: QuatV, b: QuatV)
    requires
        iabs(qdot_v(a, b)) > ALMOST_ONE_RAW,
    ensures
        slerp_v(a, b, 0) == a,
        qdot_v(a, b) >= 0 ==> slerp_v(a, b, SCALE as int) == b,
        qdot_v(a, b) < 0 ==> slerp_v(a, b, SCALE as int) == quat_neg_v(b),
{
    lemma_mul_v_one(a.w);
    lemma_mul_v_one(a.v.x);
    lemma_mul_v_one(a.v.y);
    lemma_mul_v_one(a.v.z);
    lemma_mul_v_one(b.w);
    lemma_mul_v_one(b.v.x);
    lemma_mul_v_one(b.v.y);
    lemma_mul_v_one(b.v.z);
    lemma_mul_v_one(-b.w);
    lemma_mul_v_one(-b.v.x);
    lemma_mul_v_one(-b.v.y);
    lemma_mul_v_one(-b.v.z);
    lemma_mul_v_zero(a.w);
    lemma_mul_v_zero(a.v.x);
    lemma_mul_v_zero(a.v.y);
    lemma_mul_v_zero(a.v.z);
    lemma_mul_v_zero(b.w);
    lemma_mul_v_zero(b.v.x);
    lemma_mul_v_zero(b.v.y);
    lemma_mul_v_zero(b.v.z);
    lemma_mul_v_zero(-b.w);
    lemma_mul_v_zero(-b.v.x);
    lemma_mul_v_zero(-b.v.y);
    lemma_mul_v_zero(-b.v.z);
}

/// A unit quaternion's squared magnitude lies above the near-one threshold,
/// so interpolating it with itself takes the linear branch.
pub proof fn lemma_unit_dot_above(q: QuatV)
    requires
        quat_is_unit_v(q),
    ensures
        qdot_v(q, q) > ALMOST_ONE_RAW,
{
    lemma_quat_square_nonneg(q);
    let m2 = qdot_v(q, q);
    if m2 != SCALE as int && m2 <= ALMOST_ONE_RAW {
        assert(m2 != 0);
        let diff = iabs(m2 - SCALE);
        let denom = crate::scalar::imin(iabs(m2) + iabs(SCALE as int), i64::MAX as int);
        assert(diff >= 429497);
        assert(1 <= denom <= 8589505095);
        crate::scalar::lemma_abs_mul(m2 - SCALE, SCALE as int);
        vstd::arithmetic::div_mod::lemma_div_pos_is_pos(diff * (SCALE as int), denom);
        vstd::arithmetic::div_mod::lemma_div_is_ordered(
            429497 * (SCALE as int),
            diff * (SCALE as int),
            denom,
        );
        vstd::arithmetic::div_mod::lemma_div_is_ordered_by_denominator(
            429497 * (SCALE as int),
            denom,
            8589505095,
        );
        vstd::arithmetic::div_mod::lemma_div_multiples_vanish(42950, 8589505095);
        vstd::arithmetic::div_mod::lemma_div_is_ordered(
            (42950 * 8589505095) as int,
            429497 * (SCALE as int),
            8589505095,
        );
        assert(div_v(diff, denom) >= 42950);
        assert(false);
    }
}

/// One component of a blend of a value with itself, with weights `1 - t`
/// and `t`, lands within one raw unit of the value.
proof fn lemma_blend_self_comp(c: int, t: int)
    ensures
        iabs(mul_v(c, (SCALE as int) - t) + mul_v(c, t) - c) <= 1,
{
    let a = c * ((SCALE as int) - t);
    let b = c * t;
    vstd::arithmetic::mul::lemma_mul_is_distributive_sub(c, SCALE as int, t);
    assert(a + b == c * (SCALE as int));
    crate::scalar::lemma_tdiv_error(a);
    crate::scalar::lemma_tdiv_error(b);
    let s = mul_v(c, (SCALE as int) - t) + mul_v(c, t);
    assert((s - c) * (SCALE as int) == crate::scalar::tdiv(a, SCALE as int) * (SCALE as int) - a
        + (crate::scalar::tdiv(b, SCALE as int) * (SCALE as int) - b)) by (nonlinear_arith)
        requires
            a + b == c * (SCALE as int),
            s == crate::scalar::tdiv(a, SCALE as int) + crate::scalar::tdiv(b, SCALE as int),
    ;
    assert(iabs((s - c) * (SCALE as int)) < 2 * SCALE);
    assert(iabs(s - c) <= 1) by (nonlinear_arith)
        requires
            iabs((s - c) * (SCALE as int)) < 2 * SCALE,
    ;
}

/// Spherically interpolating a unit quaternion with itself stays within one
/// raw unit of the quaternion in every component, for every weight.
pub proof fn lemma_slerp_of_self(q: QuatV, t: int)
    requires
        quat_is_unit_v(q),
    ensures
        iabs(slerp_v(q, q, t).w - q.w) <= 1,
        iabs(slerp_v(q, q, t).v.x - q.v.x) <= 1,
        iabs(slerp_v(q, q, t).v.y - q.v.y) <= 1,
        iabs(slerp_v(q, q, t).v.z - q.v.z) <= 1,
{
    lemma_unit_dot_above(q);
    lemma_blend_self_comp(q.w, t);
    lemma_blend_self_comp(q.v.x, t);
    lemma_blend_self_comp(q.v.y, t);
    lemma_blend_self_comp(q.v.z, t);
}

/// The four-component dot product of a quaternion with itself is never
/// negative.
pub proof fn lemma_quat_square_nonneg(q: QuatV)
    ensures
        qdot_v(q, q) >= 0,
{
    lemma_square_nonneg(q.w);
    lemma_square_nonneg(q.v.x);
    lemma_square_nonneg(q.v.y);
    lemma_square_nonneg(q.v.z);
}

/// Half of a raw value, by the truncating quotient with two.
pub open spec fn half_v(x: int) -> int {
    div_v(x, TWO_ONE_RAW as int)
}

/// Model of the elemental half-angle quaternion about the x axis.
pub open spec fn quat_pitch_v(p: int) -> QuatV {
    QuatV { w: cos_v(half_v(p)), v: Vec3V { x: sin_v(half_v(p)), y: 0, z: 0 } }
}

/// Model of the elemental half-angle quaternion about the y axis.
pub open spec fn quat_heading_v(h: int) -> QuatV {
    QuatV { w: cos_v(half_v(h)), v: Vec3V { x: 0, y: sin_v(half_v(h)), z: 0 } }
}

/// Model of the elemental half-angle quaternion about the z axis.
pub open spec fn quat_bank_v(b: int) -> QuatV {
    QuatV { w: cos_v(half_v(b)), v: Vec3V { x: 0, y: 0, z: sin_v(half_v(b)) } }
}

/// Model of the flexible Euler quaternion: the Hamilton product of the
/// three elemental half-angle quaternions in the requested order.
pub open spec fn quat_flex_v(p: int, h: int, b: int, order: RotationOrder) -> QuatV {
    let qp = quat_pitch_v(p);
    let qh = quat_heading_v(h);
    let qb = quat_bank_v(b);
    match order {
        RotationOrder::PHB => quat_mul_v(quat_mul_v(qp, qh), qb),
        RotationOrder::PBH => quat_mul_v(quat_mul_v(qp, qb), qh),
        RotationOrder::HPB => quat_mul_v(quat_mul_v(qh, qp), qb),
        RotationOrder::HBP => quat_mul_v(quat_mul_v(qh, qb), qp),
        RotationOrder::BPH => quat_mul_v(quat_mul_v(qb, qp), qh),
        RotationOrder::BHP => quat_mul_v(quat_mul_v(qb, qh), qp),
    }
}

/// Model of the fused object-to-upright Euler quaternion (order heading,
/// pitch, bank), over the sines and cosines of the half angles.
pub open spec fn quat_obj_upr_v(p: int, h: int, b: int) -> QuatV {
    let sp = sin_v(half_v(p));
    let cp = cos_v(half_v(p));
    let sh = sin_v(half_v(h));
    let ch = cos_v(half_v(h));
    let sb = sin_v(half_v(b));
    let cb = cos_v(half_v(b));
    QuatV {
        w: mul_v(mul_v(ch, cp), cb) + mul_v(mul_v(sh, sp), sb),
        v: Vec3V {
            x: mul_v(mul_v(ch, sp), cb) + mul_v(mul_v(sh, cp), sb),
            y: mul_v(mul_v(sh, cp), cb) - mul_v(mul_v(ch, sp), sb),
            z: mul_v(mul_v(ch, cp), sb) - mul_v(mul_v(sh, sp), cb),
        },
    }
}

/// Model of the fused upright-to-object Euler quaternion (order bank,
/// pitch, heading), over the sines and cosines of the half angles.
pub open spec fn quat_upr_obj_v(p: int, h: int, b: int) -> QuatV {
    let sp = sin_v(half_v(p));
    let cp = cos_v(half_v(p));
    let sh = sin_v(half_v(h));
    let ch = cos_v(half_v(h));
    let sb = sin_v(half_v(b));
    let cb = cos_v(half_v(b));
    QuatV {
        w: mul_v(mul_v(ch, cp), cb) + mul_v(mul_v(sh, sp), sb),
        v: Vec3V {
            x: -mul_v(mul_v(ch, sp), cb) - mul_v(mul_v(sh, cp), sb),
            y: mul_v(mul_v(ch, sp), sb) - mul_v(mul_v(sh, cp), cb),
            z: mul_v(mul_v(sh, sp), cb) - mul_v(mul_v(ch, cp), sb),
        },
    }
}

/// Model of the Euler angles read back from an object-to-upright
/// quaternion, with bank pinned to zero in the gimbal-lock band.
pub open spec fn quat_euler_obj_upr_v(q: QuatV) -> Vec3V {
    let sp = mul_v(-(TWO_ONE_RAW as int), mul_v(q.v.y, q.v.z) - mul_v(q.w, q.v.x));
    if iabs(sp) > ALMOST_ONE_RAW {
        Vec3V {
            x: mul_v(HALF_PI_RAW as int, sp),
            y: atan2_v(
                -mul_v(q.v.x, q.v.z) + mul_v(q.w, q.v.y),
                (HALF_ONE_RAW as int) - mul_v(q.v.y, q.v.y) - mul_v(q.v.z, q.v.z),
            ),
            z: 0,
        }
    } else {
        Vec3V {
            x: asin_v(sp),
            y: atan2_v(
                mul_v(q.v.x, q.v.z) + mul_v(q.w, q.v.y),
                (HALF_ONE_RAW as int) - mul_v(q.v.x, q.v.x) - mul_v(q.v.y, q.v.y),
            ),
            z: atan2_v(
                mul_v(q.v.x, q.v.y) + mul_v(q.w, q.v.z),
                (HALF_ONE_RAW as int) - mul_v(q.v.x, q.v.x) - mul_v(q.v.z, q.v.z),
            ),
        }
    }
}

/// Model of the Euler angles read back from an upright-to-object
/// quaternion, with bank pinned to zero in the gimbal-lock band.
pub open spec fn quat_euler_upr_obj_v(q: QuatV) -> Vec3V {
    let sp = mul_v(-(TWO_ONE_RAW as int), mul_v(q.v.y, q.v.z) + mul_v(q.w, q.v.x));
    if iabs(sp) > ALMOST_ONE_RAW {
        Vec3V {
            x: mul_v(HALF_PI_RAW as int, sp),
            y: atan2_v(
                -mul_v(q.v.x, q.v.z) - mul_v(q.w, q.v.y),
                (HALF_ONE_RAW as int) - mul_v(q.v.y, q.v.y) - mul_v(q.v.z, q.v.z),
            ),
            z: 0,
        }
    } else {
        Vec3V {
            x: asin_v(sp),
            y: atan2_v(
                mul_v(q.v.x, q.v.z) - mul_v(q.w, q.v.y),
                (HALF_ONE_RAW as int) - mul_v(q.v.x, q.v.x) - mul_v(q.v.y, q.v.y),
            ),
            z: atan2_v(
                mul_v(q.v.x, q.v.y) - mul_v(q.w, q.v.z),
                (HALF_ONE_RAW as int) - mul_v(q.v.x, q.v.x) - mul_v(q.v.z, q.v.z),
            ),
        }
    }
}

/// Model of the half-angle quaternion for a rotation about the unit axis
/// `n` by `theta`.
pub open spec fn quat_angle_axis_v(theta: int, n: Vec3V) -> QuatV {
    let ht = mul_v(theta, HALF_ONE_RAW as int);
    QuatV {
        w: cos_v(ht),
        v: Vec3V {
            x: mul_v(n.x, sin_v(ht)),
            y: mul_v(n.y, sin_v(ht)),
            z: mul_v(n.z, sin_v(ht)),
        },
    }
}

/// Model of the guarded angle-axis constructor: the identity when the axis
/// is shorter than the default tolerance.
pub open spec fn quat_angle_axis_safe_v(theta: int, n: Vec3V) -> QuatV {
    if sqrt_v(dot3_v(n, n)) > DEF_EPSILON_RAW {
        quat_angle_axis_v(theta, n)
    } else {
        QuatV { w: SCALE as int, v: Vec3V { x: 0, y: 0, z: 0 } }
    }
}

/// Model of the axis and angle read back from a quaternion: the vector part
/// rescaled, and twice the real part as the angle, with a renormalization
/// fallback when the vector part has nearly vanished.
pub open spec fn angle_axis_from_quat_v(q: QuatV) -> (Vec3V, int) {
    let s = sqrt_v((SCALE as int) - mul_v(q.w, q.w));
    let axis = if s < AXIS_EPS_RAW {
        normalized3_v(q.v)
    } else {
        Vec3V { x: div_v(q.v.x, s), y: div_v(q.v.y, s), z: div_v(q.v.z, s) }
    };
    (axis, 2 * q.w)
}

/// Model of rotating a vector by the sandwich product: the vector embedded
/// as a pure quaternion, multiplied on the left by the quaternion and on
/// the right by its inverse.
pub open spec fn quat_rotate_v(q: QuatV, v: Vec3V) -> Vec3V {
    quat_mul_v(quat_mul_v(q, QuatV { w: 0, v }), quat_inverse_v(q)).v
}

/// Componentwise negation of a modelled quaternion.
pub open spec fn quat_neg_v(q: QuatV) -> QuatV {
    QuatV { w: -q.w, v: Vec3V { x: -q.v.x, y: -q.v.y, z: -q.v.z } }
}

/// Weighted blend of two modelled quaternions.
pub open spec fn quat_blend_v(a: QuatV, b: QuatV, k0: int, k1: int) -> QuatV {
    QuatV {
        w: mul_v(a.w, k0) + mul_v(b.w, k1),
        v: Vec3V {
            x: mul_v(a.v.x, k0) + mul_v(b.v.x, k1),
            y: mul_v(a.v.y, k0) + mul_v(b.v.y, k1),
            z: mul_v(a.v.z, k0) + mul_v(b.v.z, k1),
        },
    }
}

/// Model of spherical interpolation: after the shorter-arc correction, a
/// linear blend when the quaternions nearly coincide and the sine-weighted
/// blend otherwise.
pub open spec fn slerp_v(a: QuatV, b: QuatV, t: int) -> QuatV {
    let c0 = qdot_v(a, b);
    let q1 = if c0 < 0 {
        quat_neg_v(b)
    } else {
        b
    };
    let co = if c0 < 0 {
        -c0
    } else {
        c0
    };
    if co > ALMOST_ONE_RAW {
        quat_blend_v(a, q1, (SCALE as int) - t, t)
    } else {
        let so = sqrt_v((SCALE as int) - mul_v(co, co));
        let om = atan2_v(so, co);
        let inv = div_v(SCALE as int, so);
        quat_blend_v(
            a,
            q1,
            mul_v(sin_v(mul_v((SCALE as int) - t, om)), inv),
            mul_v(sin_v(mul_v(t, om)), inv),
        )
    }
}

/// The raw blend formed by linear interpolation before renormalization,
/// after the shorter-arc correction.
pub open spec fn lerp_blend_v(a: QuatV, b: QuatV, t: int) -> QuatV {
    let o = if qdot_v(a, b) < 0 {
        quat_neg_v(b)
    } else {
        b
    };
    QuatV {
        w: a.w + mul_v(o.w - a.w, t),
        v: Vec3V {
            x: a.v.x + mul_v(o.v.x - a.v.x, t),
            y: a.v.y + mul_v(o.v.y - a.v.y, t),
            z: a.v.z + mul_v(o.v.z - a.v.z, t),
        },
    }
}

/// Model of normalized linear interpolation.
pub open spec fn lerp_v(a: QuatV, b: QuatV, t: int) -> QuatV {
    quat_normalized_v(lerp_blend_v(a, b, t))
}

/// Model of the quaternion power: the rotation angle scaled by the
/// exponent, except near the identity where the quaternion is returned
/// unchanged.
pub open spec fn quat_pow_v(q: QuatV, e: int) -> QuatV {
    if iabs(q.w) < ALMOST_ONE_RAW {
        let alpha = acos_v(q.w);
        let na = mul_v(alpha, e);
        let k = div_v(sin_v(na), sin_v(alpha));
        QuatV {
            w: cos_v(na),
            v: Vec3V { x: mul_v(q.v.x, k), y: mul_v(q.v.y, k), z: mul_v(q.v.z, k) },
        }
    } else {
        q
    }
}

/// All intermediates of the quaternion power are representable, and its
/// internal division is meaningful.
pub open spec fn quat_pow_fits(q: QuatV, e: int) -> bool {
    let alpha = acos_v(q.w);
    let na = mul_v(alpha, e);
    let k = div_v(sin_v(na), sin_v(alpha));
    iabs(q.w) < ALMOST_ONE_RAW ==> sin_v(alpha) != 0 && fits(na) && fits(k) && fits(
        mul_v(q.v.x, k),
    ) && fits(mul_v(q.v.y, k)) && fits(mul_v(q.v.z, k))
}

/// Model of the Shepperd extraction of a quaternion from a rotation matrix:
/// the largest of four squared-component candidates is taken by square
/// root, and the remaining components come from the off-diagonal entries.
pub open spec fn quat_from_mat3_v(m: Mat3V) -> QuatV {
    let fw = m.r0.x + m.r1.y + m.r2.z;
    let fx = m.r0.x - m.r1.y - m.r2.z;
    let fy = -m.r0.x + m.r1.y - m.r2.z;
    let fz = -m.r0.x - m.r1.y + m.r2.z;
    let i1: int = if fx > fw {
        1
    } else {
        0
    };
    let c1 = if fx > fw {
        fx
    } else {
        fw
    };
    let i2: int = if fy > c1 {
        2
    } else {
        i1
    };
    let c2 = if fy > c1 {
        fy
    } else {
        c1
    };
    let i3: int = if fz > c2 {
        3
    } else {
        i2
    };
    let c3 = if fz > c2 {
        fz
    } else {
        c2
    };
    let bv = mul_v(sqrt_v(c3 + (SCALE as int)), HALF_ONE_RAW as int);
    let mult = div_v(QUARTER_ONE_RAW as int, bv);
    if i3 == 0 {
        QuatV {
            w: bv,
            v: Vec3V {
                x: mul_v(m.r1.z - m.r2.y, mult),
                y: mul_v(m.r2.x - m.r0.z, mult),
                z: mul_v(m.r0.y - m.r1.x, mult),
            },
        }
    } else if i3 == 1 {
        QuatV {
            w: mul_v(m.r1.z - m.r2.y, mult),
            v: Vec3V {
                x: bv,
                y: mul_v(m.r0.y + m.r1.x, mult),
                z: mul_v(m.r2.x + m.r0.z, mult),
            },
        }
    } else if i3 == 2 {
        QuatV {
            w: mul_v(m.r2.x - m.r0.z, mult),
            v: Vec3V {
                x: mul_v(m.r0.y + m.r1.x, mult),
                y: bv,
                z: mul_v(m.r2.y + m.r1.z, mult),
            },
        }
    } else {
        QuatV {
            w: mul_v(m.r0.y - m.r1.x, mult),
            v: Vec3V {
                x: mul_v(m.r2.x + m.r0.z, mult),
                y: mul_v(m.r1.z + m.r2.y, mult),
                z: bv,
            },
        }
    }
}

/// Model of the rotation matrix built from a quaternion.
pub open spec fn mat3_from_quat_v(q: QuatV) -> Mat3V {
    let two = TWO_ONE_RAW as int;
    let x2 = mul_v(q.v.x, q.v.x);
    let y2 = mul_v(q.v.y, q.v.y);
    let z2 = mul_v(q.v.z, q.v.z);
    Mat3V {
        r0: Vec3V {
            x: (SCALE as int) - mul_v(two, y2 + z2),
            y: mul_v(two, mul_v(q.v.x, q.v.y) + mul_v(q.w, q.v.z)),
            z: mul_v(two, mul_v(q.v.x, q.v.z) - mul_v(q.w, q.v.y)),
        },
        r1: Vec3V {
            x: mul_v(two, mul_v(q.v.x, q.v.y) - mul_v(q.w, q.v.z)),
            y: (SCALE as int) - mul_v(two, x2 + z2),
            z: mul_v(two, mul_v(q.v.y, q.v.z) + mul_v(q.w, q.v.x)),
        },
        r2: Vec3V {
            x: mul_v(two, mul_v(q.v.x, q.v.z) + mul_v(q.w, q.v.y)),
            y: mul_v(two, mul_v(q.v.y, q.v.z) - mul_v(q.w, q.v.x)),
            z: (SCALE as int) - mul_v(two, x2 + y2),
        },
    }
}

/// A raw square root at least the default tolerance forces its argument
/// to be nonzero.
pub proof fn lemma_sqrt_pos_converse(x: int, r: int)
    requires
        is_sqrt(x, r),
        r >= 1,
        x >= 0,
    ensures
        x != 0,
{
    assert(x * (SCALE as int) >= r * r);
    assert(r * r >= 1) by (nonlinear_arith)
        requires
            r >= 1,
    ;
}

} // verus!
