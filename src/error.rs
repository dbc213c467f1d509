use vstd::prelude::*;

verus! {

/// Which boundary-supplied argument was absent or malformed.
#[derive(Clone, Copy, Debug, PartialEq, Eq, Structural)]
pub enum BadArgument {
    DataCallback,
    ErrorCallback,
    DeviceName,
    DeviceNameEncoding,
}

/// The backend operation that failed.
#[derive(Clone, Copy, Debug, PartialEq, Eq, Structural)]
pub enum BackendStep {
    ListDevices,
    DeviceName,
    SupportedConfigs,
    BuildStream,
    Play,
    Pause,
}

/// Every failure that an entry point can report.
#[derive(Clone, Debug, PartialEq, Eq)]
pub enum AudioError {
    /// A boundary input was null or not valid text.
    InvalidArgument(BadArgument),
    /// No enumerated input device carries the requested name.
    DeviceNotFound,
    /// The device offers no configuration with 32-bit float samples.
    UnsupportedFormat,
    /// The audio backend failed during the given step, with its own message.
    BackendFailure(BackendStep, String),
    /// The stream handle is not in the registry.
    NotFound,
    /// Every stream handle has been issued; handles are never reused.
    HandlesExhausted,
}

impl BackendStep {
    /// What was being attempted when the backend failed.
    pub open spec fn text(self) -> Seq<char> {
        match self {
            BackendStep::ListDevices => "cannot get input devices"@,
            BackendStep::DeviceName => "cannot get device name"@,
            BackendStep::SupportedConfigs => "device doesn't have supported configs"@,
            BackendStep::BuildStream => "cannot build input stream"@,
            BackendStep::Play => "cannot play stream"@,
            BackendStep::Pause => "cannot pause stream"@,
        }
    }

    /// What was being attempted, as text.
    pub fn context(&self) -> (r: String)
        ensures
            r@ == self.text(),
    {
        let s: &str = match self {
            BackendStep::ListDevices => "cannot get input devices",
            BackendStep::DeviceName => "cannot get device name",
            BackendStep::SupportedConfigs => "device doesn't have supported configs",
            BackendStep::BuildStream => "cannot build input stream",
            BackendStep::Play => "cannot play stream",
            BackendStep::Pause => "cannot pause stream",
        };
        s.to_owned()
    }
}

impl AudioError {
    /// The text handed across the boundary for this error; a backend
    /// failure reads as the step, a colon, and the backend's own message.
    pub open spec fn text(self) -> Seq<char> {
        match self {
            AudioError::InvalidArgument(BadArgument::DataCallback) => "Audio callback is null"@,
            AudioError::InvalidArgument(BadArgument::ErrorCallback) => "Error callback is null"@,
            AudioError::InvalidArgument(BadArgument::DeviceName) => "Device name is null"@,
            AudioError::InvalidArgument(BadArgument::DeviceNameEncoding) => "Invalid UTF-8 in device name"@,
            AudioError::DeviceNotFound => "device with specified name not found"@,
            AudioError::UnsupportedFormat => "device doesn't support f32 samples"@,
            AudioError::BackendFailure(step, detail) => step.text() + ": "@ + detail@,
            AudioError::NotFound => "stream with specified id not found"@,
            AudioError::HandlesExhausted => "no stream handles left"@,
        }
    }

    /// The message for this error, as the boundary reports it.
    pub fn message(&self) -> (r: String)
        ensures
            r@ == self.text(),
    {
        let s: &str = match self {
            AudioError::InvalidArgument(BadArgument::DataCallback) => "Audio callback is null",
            AudioError::InvalidArgument(BadArgument::ErrorCallback) => "Error callback is null",
            AudioError::InvalidArgument(BadArgument::DeviceName) => "Device name is null",
            AudioError::InvalidArgument(BadArgument::DeviceNameEncoding) => "Invalid UTF-8 in device name",
            AudioError::DeviceNotFound => "device with specified name not found",
            AudioError::UnsupportedFormat => "device doesn't support f32 samples",
            AudioError::BackendFailure(step, detail) => {
                let mut text = step.context();
                text.append(": ");
                text.append(detail.as_str());
                return text;
            },
            AudioError::NotFound => "stream with specified id not found",
            AudioError::HandlesExhausted => "no stream handles left",
        };
        s.to_owned()
    }
}

} // verus!
