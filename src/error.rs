use vstd::prelude::*;

verus! {

/// Why a capture session ended without a complete recording.
#[derive(Clone, Copy, Debug, PartialEq, Eq, Structural)]
pub enum CaptureError {
    /// No default capture device exists.
    DeviceUnavailable,
    /// The device offers no usable stream configuration.
    StreamConfigUnavailable,
    /// The device's sample format is not one of the four streamable ones.
    UnsupportedSampleFormat,
    /// The target WAV file could not be created or opened.
    FileCreateFailure,
    /// The device refused to build or start the input stream.
    StreamStartFailure,
    /// Flushing and closing the WAV encoder failed, or it was already closed.
    FinalizeFailure,
}

impl CaptureError {
    /// A one-line description of the failure.
    pub fn message(&self) -> (r: String)
        ensures
            r@ == error_message_spec(*self)@,
    {
        match self {
            CaptureError::DeviceUnavailable => String::from_str("Failed to find default capture device"),
            CaptureError::StreamConfigUnavailable => String::from_str("Failed to get default stream config"),
            CaptureError::UnsupportedSampleFormat => String::from_str("Unsupported sample format"),
            CaptureError::FileCreateFailure => String::from_str("Failed to create WAV writer"),
            CaptureError::StreamStartFailure => String::from_str("Failed to start input stream"),
            CaptureError::FinalizeFailure => String::from_str("Failed to finalize writer"),
        }
    }
}

pub open spec fn error_message_spec(e: CaptureError) -> &'static str {
    match e {
        CaptureError::DeviceUnavailable => "Failed to find default capture device",
        CaptureError::StreamConfigUnavailable => "Failed to get default stream config",
        CaptureError::UnsupportedSampleFormat => "Unsupported sample format",
        CaptureError::FileCreateFailure => "Failed to create WAV writer",
        CaptureError::StreamStartFailure => "Failed to start input stream",
        CaptureError::FinalizeFailure => "Failed to finalize writer",
    }
}

} // verus!
