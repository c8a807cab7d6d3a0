//! The errors that a caller's parameters can cause.

use vstd::prelude::*;

verus! {

/// A parameter that violates a documented precondition of an operation.
#[derive(Clone, Copy, Debug, PartialEq, Eq, Structural)]
pub enum ValidationError {
    /// A blend opacity outside `[0.0, 1.0]`.
    OpacityOutOfRange,
    /// A negative blur sigma.
    NegativeSigma,
    /// A crop square that reaches past the right edge of the image.
    CropExceedsWidth,
    /// A crop square that reaches past the bottom edge of the image.
    CropExceedsHeight,
    /// A crop square of edge 0 inside the image: it holds no pixel, and an
    /// image has at least one.
    EmptyCrop,
}

impl ValidationError {
    /// The text shown to a caller for this error.
    pub open spec fn text(self) -> Seq<char> {
        match self {
            ValidationError::OpacityOutOfRange => "Opacity must be between 0.0 and 1.0"@,
            ValidationError::NegativeSigma => "Sigma must be non-negative"@,
            ValidationError::CropExceedsWidth => "Crop area exceeds image width"@,
            ValidationError::CropExceedsHeight => "Crop area exceeds image height"@,
            ValidationError::EmptyCrop => "Crop area is empty"@,
        }
    }

    /// The text shown to a caller for this error, as an owned string.
    pub fn message(&self) -> (s: String)
        ensures
            s@ == self.text(),
    {
        match self {
            ValidationError::OpacityOutOfRange => "Opacity must be between 0.0 and 1.0".to_owned(),
            ValidationError::NegativeSigma => "Sigma must be non-negative".to_owned(),
            ValidationError::CropExceedsWidth => "Crop area exceeds image width".to_owned(),
            ValidationError::CropExceedsHeight => "Crop area exceeds image height".to_owned(),
            ValidationError::EmptyCrop => "Crop area is empty".to_owned(),
        }
    }
}

} // verus!
