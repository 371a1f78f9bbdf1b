use vstd::prelude::*;

verus! {

/// The failures of recording, playback, import and export.
#[derive(Clone, Copy, Debug, PartialEq, Eq, Structural)]
pub enum ClipError {
    /// No device, or the stream could not be built or negotiated.
    DeviceError,
    /// The interruption handler or its channel failed.
    SignalError,
    /// An export path that does not end in `.wav`.
    InvalidExtension,
    /// The decoded container has no default track.
    NoTrack,
    /// The track does not tell its sample rate or its channel count.
    UnknownFormat,
    /// Reading the stream failed otherwise than by reaching its end.
    IoError,
}

} // verus!
