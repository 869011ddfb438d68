use vstd::prelude::*;

use crate::events::EventKind;

verus! {

/// Why a configured audio file could not be read.
#[derive(Clone, Copy, Debug, PartialEq, Eq, Structural)]
pub enum ReadFailure {
    NotFound,
    PermissionDenied,
    ReadError,
}

/// Startup failure of the audio resource store: the first configured path, in
/// catalog order, whose bytes could not be read. No partial table is published
/// when this is reported.
#[derive(Clone, Copy, Debug, PartialEq, Eq, Structural)]
pub struct ResourceLoadError {
    pub kind: EventKind,
    pub failure: ReadFailure,
}

/// The fatal startup errors. Any of them leaves the process running with no
/// dispatcher active: events are then never subscribed to, so no sound plays
/// and nothing crashes.
#[derive(Clone, Copy, Debug, PartialEq, Eq, Structural)]
pub enum StartupError {
    /// The configuration document could not be read.
    ConfigUnreadable,
    /// The configuration document could not be parsed.
    ConfigMalformed,
    /// A configured audio file could not be read.
    ResourceLoad(ResourceLoadError),
    /// The output audio device could not be opened.
    DeviceUnavailable,
    /// A second initialization was attempted in the same process.
    AlreadyInitialized,
}

impl StartupError {
    /// Wraps a resource-store failure as the fatal startup error it is.
    pub fn from_load(e: ResourceLoadError) -> (r: StartupError)
        ensures
            r == StartupError::ResourceLoad(e),
    {
        StartupError::ResourceLoad(e)
    }
}

} // verus!
