//! Failure kinds of the capture pipeline.

use vstd::prelude::*;
use vstd::string::StringExecFns;

verus! {

/// Why a command of the capture pipeline failed.
///
/// Variants that originate in a collaborator (the audio host, the encoder,
/// the settings store) carry that collaborator's own description.
#[derive(Debug, PartialEq, Eq)]
pub enum CaptureError {
    /// The audio host has no input device.
    DeviceUnavailable,
    /// The device's default input configuration could not be queried.
    ConfigError(String),
    /// The device's native sample encoding is none of the supported three.
    UnsupportedFormat,
    /// The hardware stream could not be built or started.
    StreamError(String),
    /// `stop` was requested while no recording was running.
    NotRecording,
    /// The recording could not be encoded or written.
    EncodeError(String),
    /// The settings store could not be read or written.
    SettingsIoError(String),
}

impl CaptureError {
    /// The text shown to the caller of a failed command.
    pub open spec fn message(self) -> Seq<char> {
        match self {
            CaptureError::DeviceUnavailable => "No input device available"@,
            CaptureError::UnsupportedFormat => "Unsupported sample format"@,
            CaptureError::NotRecording => "Recording is not running"@,
            CaptureError::ConfigError(detail) => detail@,
            CaptureError::StreamError(detail) => detail@,
            CaptureError::EncodeError(detail) => detail@,
            CaptureError::SettingsIoError(detail) => detail@,
        }
    }

    /// Renders the error as the descriptive value handed back to the caller.
    pub fn describe(&self) -> (text: String)
        ensures
            text@ == self.message(),
    {
        match self {
            CaptureError::DeviceUnavailable => String::from_str("No input device available"),
            CaptureError::UnsupportedFormat => String::from_str("Unsupported sample format"),
            CaptureError::NotRecording => String::from_str("Recording is not running"),
            CaptureError::ConfigError(detail) => detail.clone(),
            CaptureError::StreamError(detail) => detail.clone(),
            CaptureError::EncodeError(detail) => detail.clone(),
            CaptureError::SettingsIoError(detail) => detail.clone(),
        }
    }
}

} // verus!
