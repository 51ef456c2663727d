pub mod scalar;
pub mod vec3;

pub use crate::scalar::Scalar;
pub use crate::vec3::Vec3;
