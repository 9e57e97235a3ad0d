//! A generic two-dimensional vector value type over machine-integer scalars,
//! with field-wise arithmetic, geometric queries, and a matrix of lossless
//! and bounded lossy conversions between the scalar kinds.

pub mod convert;
pub mod laws;
pub mod scalar;
pub mod vector;

pub use convert::LosslessFrom;
pub use convert::LossyCast;
pub use scalar::Scalar;
pub use vector::Vector2D;
