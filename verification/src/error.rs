//! Errors reported by the codec and by the command layer.

use vstd::prelude::*;

verus! {

/// The parameters of a mode that have bounds.
#[derive(Debug, Clone, Copy, PartialEq, Eq, Structural)]
pub enum Parameter {
    Speed,
    Brightness,
}

/// Why a locally validated command was refused. Nothing is sent when one of
/// these is returned.
#[derive(Debug, Clone, Copy, PartialEq, Eq, Structural)]
pub enum CommandError {
    /// An index lies outside the addressed controller, zone, segment or list.
    IndexOutOfBounds { index: usize, len: usize },
    /// A range of LEDs does not fit inside the zone that should hold it.
    RangeOutOfBounds { start: usize, count: usize, len: usize },
    /// A segment does not lie inside the zone that should hold it.
    SegmentOutOfZone,
    /// The session's protocol version has no segments.
    SegmentsUnsupported,
    /// The mode lacks the speed capability, or declares no speed bounds.
    SpeedUnsupported,
    /// The mode lacks the brightness capability, or declares no bounds for it.
    BrightnessUnsupported,
    /// The mode lacks the direction capability.
    DirectionUnsupported,
    /// A parameter of a mode lies outside the inclusive range the device
    /// declares for it.
    OutOfRange { parameter: Parameter, min: u32, max: u32, value: u32 },
    /// A size lies outside the inclusive range the device declares.
    SizeOutOfRange { min_size: usize, max_size: usize, size: usize },
    /// A value cannot be spelled on the wire: a length exceeds the width of
    /// its field, or a version-gated field is absent at a version that
    /// transmits it.
    NotEncodable,
}

/// Errors of this library.
#[derive(Debug, Clone, Copy, PartialEq, Eq, Structural)]
pub enum OpenRgbError {
    /// A message ended early, or a length in it disagrees with its bytes.
    MalformedMessage,
    /// A command failed local validation.
    CommandError(CommandError),
}

pub type OpenRgbResult<T> = Result<T, OpenRgbError>;

} // verus!
