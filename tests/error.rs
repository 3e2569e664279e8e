use orientations::RotationError;

#[test]
fn degenerate_vector_message() {
    assert_eq!(
        RotationError::DegenerateVector.message(),
        "Cannot normalize vector with zero magnitude"
    );
}

#[test]
fn degenerate_rotation_message() {
    assert_eq!(
        RotationError::DegenerateRotation.message(),
        "Quaternion close to zero; cannot invert."
    );
}

#[test]
fn error_kinds_are_distinct() {
    assert_ne!(RotationError::DegenerateVector, RotationError::DegenerateRotation);
    assert_eq!(RotationError::DegenerateVector, RotationError::DegenerateVector);
}
