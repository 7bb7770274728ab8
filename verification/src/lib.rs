use vstd::prelude::*;

pub mod ivec2;
pub mod ivec3;
pub mod ivec4;
pub mod mat2;
pub mod mat3;
pub mod mat4;
pub mod quat;
pub mod scalar;
pub mod trig;
pub mod vec2;
pub mod vec3;
pub mod vec4;

pub use ivec2::IVec2;
pub use ivec3::IVec3;
pub use ivec4::IVec4;
pub use mat2::Mat2;
pub use mat3::Mat3;
pub use mat4::Mat4;
pub use quat::Quat;
pub use scalar::Scalar;
pub use vec2::Vec2;
pub use vec3::Vec3;
pub use vec4::Vec4;

verus! {

/// The error signalled by the matrix inversions when the determinant is
/// within the default tolerance of zero, so that no inverse can be formed.
#[derive(Clone, Copy, Debug, PartialEq, Eq, Structural)]
pub struct SingularMatrix;

/// The six orderings in which the three elemental rotations (pitch about the
/// local X axis, heading about Y, bank about Z) can be composed into one
/// rotation.  Three-dimensional rotations do not commute, so each ordering
/// names a different rotation.
#[derive(Clone, Copy, Debug, PartialEq, Eq, Structural)]
pub enum RotationOrder {
    PHB,
    PBH,
    HPB,
    HBP,
    BPH,
    BHP,
}

} // verus!
