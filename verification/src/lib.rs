//! Window-focus change tracking: the decisions of a focus hook, free of I/O.
//!
//! A host program owns the native event source (an X11 connection, a Win32
//! message pump, a Cocoa run loop). It hands every native observation to the
//! types of this crate, which decide what to query next, which titles reach
//! the observer, which resources are to be released, and when a run ends.

pub mod dedup;
pub mod error;
pub mod hook;
pub mod linux;
pub mod observer;
pub mod platform;
pub mod title;
pub mod win32;

pub use dedup::TitleDeduplicator;
pub use error::WinshiftError;
pub use hook::{FocusChangeHandler, Phase, Reaction, Teardown, Wake, WindowFocusHook};
pub use platform::{Platform, Resource};
