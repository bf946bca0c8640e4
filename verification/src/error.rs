//! Error kinds surfaced by the drivers and the capture subsystem.

use vstd::prelude::*;

verus! {

#[derive(Debug, Clone)]
pub enum FFBError {
    DeviceNotFound,
    InitializationFailed(String),
    EffectCreationFailed(String),
    EffectPlaybackFailed(String),
    EffectStopFailed(String),
    DeviceError(String),
    InvalidParameter(String),
}

pub type FFBResult<T> = Result<T, FFBError>;

impl FFBError {
    /// Diagnostic text of the error, with the underlying detail appended.
    pub open spec fn spec_message(&self) -> Seq<char> {
        match self {
            FFBError::DeviceNotFound => "Device not found"@,
            FFBError::InitializationFailed(d) => "Failed to initialize device: "@ + d@,
            FFBError::EffectCreationFailed(d) => "Failed to create effect: "@ + d@,
            FFBError::EffectPlaybackFailed(d) => "Failed to play effect: "@ + d@,
            FFBError::EffectStopFailed(d) => "Failed to stop effect: "@ + d@,
            FFBError::DeviceError(d) => "Device error: "@ + d@,
            FFBError::InvalidParameter(d) => "Invalid parameter: "@ + d@,
        }
    }

    /// Render the diagnostic text of this error.
    pub fn message(&self) -> (r: String)
        ensures
            r@ == self.spec_message(),
    {
        match self {
            FFBError::DeviceNotFound => String::from_str("Device not found"),
            FFBError::InitializationFailed(d) => {
                let mut s = String::from_str("Failed to initialize device: ");
                s.append(d.as_str());
                s
            },
            FFBError::EffectCreationFailed(d) => {
                let mut s = String::from_str("Failed to create effect: ");
                s.append(d.as_str());
                s
            },
            FFBError::EffectPlaybackFailed(d) => {
                let mut s = String::from_str("Failed to play effect: ");
                s.append(d.as_str());
                s
            },
            FFBError::EffectStopFailed(d) => {
                let mut s = String::from_str("Failed to stop effect: ");
                s.append(d.as_str());
                s
            },
            FFBError::DeviceError(d) => {
                let mut s = String::from_str("Device error: ");
                s.append(d.as_str());
                s
            },
            FFBError::InvalidParameter(d) => {
                let mut s = String::from_str("Invalid parameter: ");
                s.append(d.as_str());
                s
            },
        }
    }
}

} // verus!
