use vstd::prelude::*;

verus! {

/// The two ways an operation on vectors and rotations can fail: the input
/// is numerically too close to zero to carry a direction or to be inverted.
#[derive(Clone, Copy, Debug, PartialEq, Eq, Structural)]
pub enum RotationError {
    /// A vector whose length is too small to normalize.
    DegenerateVector,
    /// A rotation too close to the zero quaternion to invert.
    DegenerateRotation,
}

/// The human-readable text of each failure.
pub open spec fn message_of(e: RotationError) -> Seq<char> {
    match e {
        RotationError::DegenerateVector => "Cannot normalize vector with zero magnitude"@,
        RotationError::DegenerateRotation => "Quaternion close to zero; cannot invert."@,
    }
}

impl RotationError {
    /// Describes the failure in words.
    pub fn message(&self) -> (r: String)
        ensures
            r@ == message_of(*self),
    {
        match self {
            RotationError::DegenerateVector => "Cannot normalize vector with zero magnitude".to_string(),
            RotationError::DegenerateRotation => "Quaternion close to zero; cannot invert.".to_string(),
        }
    }
}

} // verus!
