//! Error taxonomy of the coordinator.

use vstd::prelude::*;

verus! {

/// The failures the coordinator can report across its command boundary.
#[derive(Clone, Copy, Debug, PartialEq, Eq, Structural)]
pub enum CoordinatorError {
    /// A file or directory could not be created, read, or written.
    IoError,
    /// The hotkey chord could not be registered, typically because another
    /// handler already claims it.
    HotkeyError,
    /// The application has no configured bundle identifier.
    ConfigError,
    /// The current platform offers no supported mechanism for the feature.
    UnsupportedPlatformError,
    /// A window could not be created, shown, hidden, or focused.
    WindowOperationError,
}

/// The human-readable message reported for each error.
pub open spec fn message_of(e: CoordinatorError) -> Seq<char> {
    match e {
        CoordinatorError::IoError => "file access failed"@,
        CoordinatorError::HotkeyError => "hotkey registration refused"@,
        CoordinatorError::ConfigError => "application identifier not configured"@,
        CoordinatorError::UnsupportedPlatformError => "feature not supported on this platform"@,
        CoordinatorError::WindowOperationError => "window operation failed"@,
    }
}

impl CoordinatorError {
    /// The message handed to the front end when a command fails.
    pub fn message(&self) -> (r: String)
        ensures
            r@ == message_of(*self),
    {
        match self {
            CoordinatorError::IoError => String::from_str("file access failed"),
            CoordinatorError::HotkeyError => String::from_str("hotkey registration refused"),
            CoordinatorError::ConfigError => String::from_str(
                "application identifier not configured",
            ),
            CoordinatorError::UnsupportedPlatformError => String::from_str(
                "feature not supported on this platform",
            ),
            CoordinatorError::WindowOperationError => String::from_str("window operation failed"),
        }
    }
}

} // verus!
