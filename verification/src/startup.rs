//! The initialization sequence: adapter, then device, then pixel format,
//! then the first configuration. Each stage is a type of its own, so a later
//! stage can only be reached through the ones before it, and the first
//! failure ends the sequence.

use vstd::prelude::*;
use crate::config::{ConfigModel, PixelFormat, SurfaceConfig};
use crate::lifecycle::{Action, LifecycleModel, SurfaceLifecycle};

verus! {

/// The capability bits asked of the device: none.
pub const REQUIRED_FEATURES: u64 = 0;

/// Why the surface could not be brought up. None of these can be recovered from.
#[derive(Clone, Copy, Debug, PartialEq, Eq, Structural)]
pub enum InitError {
    /// No physical adapter can present to the window.
    NoCompatibleAdapter,
    /// The adapter refused the requested device.
    DeviceRequestFailed,
    /// The surface reports no pixel format for the adapter.
    NoSupportedFormat,
}

impl InitError {
    /// The line that names the negotiation step that failed.
    pub open spec fn message_of(self) -> Seq<char> {
        match self {
            InitError::NoCompatibleAdapter => "Failed to request an adapter"@,
            InitError::DeviceRequestFailed => "Failed to request a device"@,
            InitError::NoSupportedFormat => "Failed to get preferred format"@,
        }
    }

    /// The line to end the process with.
    pub fn message(&self) -> (text: &'static str)
        ensures
            text@ == self.message_of(),
    {
        match self {
            InitError::NoCompatibleAdapter => "Failed to request an adapter",
            InitError::DeviceRequestFailed => "Failed to request a device",
            InitError::NoSupportedFormat => "Failed to get preferred format",
        }
    }
}

/// First stage: the window's size is known and an adapter has to be selected.
#[derive(Clone, Copy, Debug, PartialEq, Eq)]
pub struct AwaitingAdapter {
    width: u32,
    height: u32,
}

/// Second stage: an adapter was selected and a device has to be requested from it.
#[derive(Clone, Copy, Debug, PartialEq, Eq)]
pub struct AwaitingDevice {
    width: u32,
    height: u32,
}

/// Third stage: device and queue exist and the surface's preferred format
/// has to be queried.
#[derive(Clone, Copy, Debug, PartialEq, Eq)]
pub struct AwaitingFormat {
    width: u32,
    height: u32,
}

/// Starts the sequence with the window's current physical size, which may
/// be zero in either dimension.
pub fn begin(width: u32, height: u32) -> (stage: AwaitingAdapter)
    ensures
        stage.window_size() == (width, height),
{
    AwaitingAdapter { width, height }
}

impl AwaitingAdapter {
    /// The raw window size the sequence was started with.
    pub closed spec fn window_size(self) -> (u32, u32) {
        (self.width, self.height)
    }

    /// Takes the outcome of the adapter selection. Without an adapter the
    /// sequence ends here.
    pub fn adapter_selected(self, found: bool) -> (next: Result<AwaitingDevice, InitError>)
        ensures
            match next {
                Ok(stage) => found && stage.window_size() == self.window_size(),
                Err(error) => !found && error == InitError::NoCompatibleAdapter,
            },
    {
        if found {
            Ok(AwaitingDevice { width: self.width, height: self.height })
        } else {
            Err(InitError::NoCompatibleAdapter)
        }
    }
}

impl AwaitingDevice {
    /// The raw window size the sequence was started with.
    pub closed spec fn window_size(self) -> (u32, u32) {
        (self.width, self.height)
    }

    /// Takes the outcome of the device request. A refused request ends the
    /// sequence.
    pub fn device_requested(self, granted: bool) -> (next: Result<AwaitingFormat, InitError>)
        ensures
            match next {
                Ok(stage) => granted && stage.window_size() == self.window_size(),
                Err(error) => !granted && error == InitError::DeviceRequestFailed,
            },
    {
        if granted {
            Ok(AwaitingFormat { width: self.width, height: self.height })
        } else {
            Err(InitError::DeviceRequestFailed)
        }
    }
}

impl AwaitingFormat {
    /// The raw window size the sequence was started with.
    pub closed spec fn window_size(self) -> (u32, u32) {
        (self.width, self.height)
    }

    /// Takes the surface's preferred format and builds the running state
    /// machine over the first configuration, together with the action that
    /// ends the sequence: pushing that configuration to the surface. A
    /// surface without a format ends the sequence with an error.
    pub fn format_queried(self, preferred: Option<PixelFormat>) -> (next: Result<
        (SurfaceLifecycle, Action),
        InitError,
    >)
        ensures
            match (preferred, next) {
                (Some(format), Ok((lifecycle, action))) => {
                    &&& lifecycle@ == LifecycleModel::started(
                        ConfigModel::initial(self.window_size().0, self.window_size().1, format),
                    )
                    &&& action == Action::Configure
                },
                (None, Err(error)) => error == InitError::NoSupportedFormat,
                _ => false,
            },
    {
        match preferred {
            Some(format) => Ok(
                (
                    SurfaceLifecycle::new(SurfaceConfig::initial(self.width, self.height, format)),
                    Action::Configure,
                ),
            ),
            None => Err(InitError::NoSupportedFormat),
        }
    }
}

} // verus!
