//! A fixed-size linear-algebra kernel: vectors of two, three and four
//! components, square matrices up to 4 by 4, and quaternions, generic over an
//! element kind described by the scalar capability traits.
//!
//! Every operation carries a contract that pins its result down exactly, as a
//! spec-level formula over the element kind's own operations: the algebra is
//! verified once and holds for every kind. The crate supplies the 32-bit
//! integer and mask kinds; a floating-point kind is supplied by the caller as
//! a newtype implementing the capability traits.

mod lerp;
mod mat2x2;
mod mat3x3;
mod mat4x4;
mod quaternion;
mod scalar;
mod vector2;
mod vector3;
mod vector4;

pub use lerp::{lemma_inv_lerp_i32_roundtrip, lemma_lerp_i32_endpoints, Lerp};
pub use mat2x2::Matrix2x2;
pub use mat3x3::Matrix3x3;
pub use mat4x4::Matrix4x4;
pub use quaternion::Quaternion;
pub use scalar::{Element, FloatScalar, Scalar, ScalarCast, SignedScalar};
pub use vector2::{Vector2, Vector2bool, Vector2i32, Vector2u32};
pub use vector3::{Vector3, Vector3bool, Vector3i32, Vector3u32};
pub use vector4::{Vector4, Vector4bool, Vector4i32, Vector4u32};
