//! The failures a recording can end in.

use vstd::prelude::*;
use vstd::string::StringExecFns;

verus! {

/// Why a capture stream could not be built.
#[derive(Clone, Debug, PartialEq, Eq)]
pub enum BuildFailure {
    /// The device's native sample format has no conversion rule.
    UnsupportedFormat,
    /// The device refused the stream; the text is the device's own.
    Device(String),
}

/// A failure of `start`, `stop` or a step between them. None of them ends
/// the process.
#[derive(Clone, Debug, PartialEq, Eq)]
pub enum RecorderError {
    /// `start` while a session exists.
    AlreadyRecording,
    /// No device was chosen and the platform has no default input device.
    NoInputDevice,
    /// The device's default input configuration could not be used.
    DeviceConfigError(String),
    /// The capture stream could not be built.
    StreamBuildError(BuildFailure),
    /// The capture stream was built but did not start.
    StreamPlayError(String),
    /// `stop` while no session exists, or a step of stopping that is not
    /// due.
    NotRecording,
    /// The writer thread panicked.
    WriterPanicked,
    /// The writer thread ended with a failure of the container.
    WriterIOError(String),
    /// The writer ended well but the file at this path is not there.
    FileMissing(String),
    /// The writer ended well but the file holds no bytes, or the container
    /// no samples.
    EmptyRecording,
}

impl RecorderError {
    /// The text shown for this failure.
    pub open spec fn text(self) -> Seq<char> {
        match self {
            RecorderError::AlreadyRecording => "Already recording"@,
            RecorderError::NoInputDevice => "No default input device (mic)"@,
            RecorderError::DeviceConfigError(e) => "default input config: "@ + e@,
            RecorderError::StreamBuildError(BuildFailure::UnsupportedFormat) =>
                "Unsupported sample format"@,
            RecorderError::StreamBuildError(BuildFailure::Device(e)) => "build stream: "@ + e@,
            RecorderError::StreamPlayError(e) => "stream play: "@ + e@,
            RecorderError::NotRecording => "Not recording"@,
            RecorderError::WriterPanicked => "writer thread panicked"@,
            RecorderError::WriterIOError(e) => "writer failed: "@ + e@,
            RecorderError::FileMissing(path) => "Recorded file does not exist: "@ + path@,
            RecorderError::EmptyRecording => "Recorded file is empty"@,
        }
    }

    /// Renders the failure as the text shown to the user.
    pub fn message(&self) -> (s: String)
        ensures
            s@ == self.text(),
    {
        match self {
            RecorderError::AlreadyRecording => String::from_str("Already recording"),
            RecorderError::NoInputDevice => String::from_str("No default input device (mic)"),
            RecorderError::DeviceConfigError(e) => String::from_str(
                "default input config: ",
            ).concat(e.as_str()),
            RecorderError::StreamBuildError(BuildFailure::UnsupportedFormat) => String::from_str(
                "Unsupported sample format",
            ),
            RecorderError::StreamBuildError(BuildFailure::Device(e)) => String::from_str(
                "build stream: ",
            ).concat(e.as_str()),
            RecorderError::StreamPlayError(e) => String::from_str("stream play: ").concat(
                e.as_str(),
            ),
            RecorderError::NotRecording => String::from_str("Not recording"),
            RecorderError::WriterPanicked => String::from_str("writer thread panicked"),
            RecorderError::WriterIOError(e) => String::from_str("writer failed: ").concat(
                e.as_str(),
            ),
            RecorderError::FileMissing(path) => String::from_str(
                "Recorded file does not exist: ",
            ).concat(path.as_str()),
            RecorderError::EmptyRecording => String::from_str("Recorded file is empty"),
        }
    }
}

} // verus!
