//! Error type for the message layer.
use vstd::prelude::*;

verus! {

/// Errors reported by the message parsing layer.
#[derive(Clone, Copy, Debug, PartialEq, Eq, Structural)]
pub enum CameraControlError {
    /// The byte sequence is not a well-formed frame.
    ParseError,
    /// A category id lies outside the range the model covers.
    CategoryOutOfRange,
    /// The device did not answer in time.
    ConnectionTimeout,
}

} // verus!
