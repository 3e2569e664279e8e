//! Exact, float-free building blocks of a 3-D rotation toolkit: the typed
//! failures of its degenerate cases and the row/column layout of 3x3
//! matrices, generic over the entry type.

mod error;
mod matrix3;

pub use error::RotationError;
pub use matrix3::Matrix3;
