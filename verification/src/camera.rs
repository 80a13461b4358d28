//! Camera configuration status and image orientation, as reported by the
//! capture stack after validating a configuration.

use vstd::prelude::*;

verus! {

/// Outcome of validating a camera configuration.
#[derive(Debug, Clone, Copy, PartialEq, Eq, Structural)]
pub enum CameraConfigurationStatus {
    /// The configuration was validated without issues.
    Valid,
    /// The configuration is usable, but some fields were adjusted.
    Adjusted,
    /// The configuration is invalid.
    Invalid,
}

impl CameraConfigurationStatus {
    pub fn is_valid(&self) -> (r: bool)
        ensures
            r == (*self == CameraConfigurationStatus::Valid),
    {
        matches!(self, Self::Valid)
    }

    pub fn is_adjusted(&self) -> (r: bool)
        ensures
            r == (*self == CameraConfigurationStatus::Adjusted),
    {
        matches!(self, Self::Adjusted)
    }

    pub fn is_invalid(&self) -> (r: bool)
        ensures
            r == (*self == CameraConfigurationStatus::Invalid),
    {
        matches!(self, Self::Invalid)
    }
}

/// Desired orientation of the captured image.
#[derive(Debug, Clone, Copy, PartialEq, Eq, Structural)]
pub enum Orientation {
    Rotate0,
    Rotate0Mirror,
    Rotate180,
    Rotate180Mirror,
    Rotate90Mirror,
    Rotate270,
    Rotate270Mirror,
    Rotate90,
}

} // verus!
