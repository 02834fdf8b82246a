//! The errors a focus hook reports.

use vstd::prelude::*;
use vstd::string::StringExecFns;

verus! {

/// Why a run or a stop request failed.
#[derive(Debug, PartialEq, Eq)]
pub enum WinshiftError {
    /// A native connection or resource could not be acquired.
    InitializationError,
    /// The native notification hook could not be registered.
    HookError,
    /// The cancellation signal could not be delivered.
    StopError,
    /// No backend exists for the host; carries a description.
    PlatformError(String),
    /// A Win32 error, carried for diagnostics.
    WindowsError(String),
    /// An X11 error, carried for diagnostics.
    X11Error(String),
    /// A macOS error, carried for diagnostics.
    MacOSError(String),
}

impl WinshiftError {
    /// The human-readable text of the error.
    pub open spec fn message_spec(self) -> Seq<char> {
        match self {
            WinshiftError::InitializationError => "Failed to initialize hook"@,
            WinshiftError::HookError => "Failed to set event hook"@,
            WinshiftError::StopError => "Failed to stop hook"@,
            WinshiftError::PlatformError(detail) => "Platform-specific error: "@ + detail@,
            WinshiftError::WindowsError(detail) => "Windows API error: "@ + detail@,
            WinshiftError::X11Error(detail) => "X11 error: "@ + detail@,
            WinshiftError::MacOSError(detail) => "macOS error: "@ + detail@,
        }
    }

    /// Renders the error as text.
    pub fn message(&self) -> (text: String)
        ensures
            text@ == self.message_spec(),
    {
        match self {
            WinshiftError::InitializationError => String::from_str("Failed to initialize hook"),
            WinshiftError::HookError => String::from_str("Failed to set event hook"),
            WinshiftError::StopError => String::from_str("Failed to stop hook"),
            WinshiftError::PlatformError(detail) => String::from_str(
                "Platform-specific error: ",
            ).concat(detail.as_str()),
            WinshiftError::WindowsError(detail) => String::from_str("Windows API error: ").concat(
                detail.as_str(),
            ),
            WinshiftError::X11Error(detail) => String::from_str("X11 error: ").concat(
                detail.as_str(),
            ),
            WinshiftError::MacOSError(detail) => String::from_str("macOS error: ").concat(
                detail.as_str(),
            ),
        }
    }
}

} // verus!
