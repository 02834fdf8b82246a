//! The decisions of the message-loop event source: a Win32 event hook whose
//! callback runs from the message pump of the thread that registered it.

use crate::error::WinshiftError;
use crate::hook::Wake;
use vstd::prelude::*;

verus! {

/// The kind of a window event, as far as the source tells kinds apart.
#[derive(Clone, Copy, Debug, PartialEq, Eq, Structural)]
pub enum WinEvent {
    /// Another window came to the foreground.
    ForegroundChanged,
    /// The name of a window changed.
    NameChanged,
    /// Any other event between the two in the hooked range.
    Other,
}

/// Follows the foreground window.
#[derive(Clone, Copy, Debug, PartialEq, Eq, Structural)]
pub struct ForegroundTracker {
    /// The window last seen to come to the foreground.
    pub focused: Option<isize>,
}

impl ForegroundTracker {
    /// The window whose title is to be resolved for an event on `window`: the
    /// window that came to the foreground, or the foreground window when its
    /// own name changed.
    pub open spec fn target_of(self, event: WinEvent, window: isize) -> Option<isize> {
        match event {
            WinEvent::ForegroundChanged => Some(window),
            WinEvent::NameChanged => if self.focused == Some(window) {
                Some(window)
            } else {
                None
            },
            WinEvent::Other => None,
        }
    }

    /// The foreground window that is tracked after that event.
    pub open spec fn focused_after(self, event: WinEvent, window: isize) -> Option<isize> {
        if event == WinEvent::ForegroundChanged {
            Some(window)
        } else {
            self.focused
        }
    }

    /// A tracker that has seen no window come to the foreground.
    pub fn new() -> (tracker: Self)
        ensures
            tracker.focused is None,
    {
        ForegroundTracker { focused: None }
    }

    /// Takes an event on `window` and returns the window whose title is to be
    /// resolved, if the event is relevant.
    pub fn target(&mut self, event: WinEvent, window: isize) -> (target: Option<isize>)
        ensures
            target == old(self).target_of(event, window),
            final(self).focused == old(self).focused_after(event, window),
    {
        match event {
            WinEvent::ForegroundChanged => {
                self.focused = Some(window);
                Some(window)
            },
            WinEvent::NameChanged => {
                match self.focused {
                    Some(current) => {
                        if current == window {
                            Some(window)
                        } else {
                            None
                        }
                    },
                    None => None,
                }
            },
            WinEvent::Other => None,
        }
    }
}

/// What the retrieval of a message means: a positive result is a message to
/// dispatch, anything else ends the pump.
pub open spec fn message_wake(result: i32) -> Wake {
    if result > 0 {
        Wake::Notification
    } else {
        Wake::Cancelled
    }
}

/// Interprets the result of retrieving a message from the pump.
pub fn wake_from_message(result: i32) -> (wake: Wake)
    ensures
        wake == message_wake(result),
{
    if result > 0 {
        Wake::Notification
    } else {
        Wake::Cancelled
    }
}

/// Judges the posting of the quit message to the pump's thread: the stop
/// signal was delivered exactly when the message was posted.
pub fn stop_hook(posted: bool) -> (signalled: Result<(), WinshiftError>)
    ensures
        posted ==> signalled is Ok,
        !posted ==> signalled == Err::<(), WinshiftError>(WinshiftError::StopError),
{
    if posted {
        Ok(())
    } else {
        Err(WinshiftError::StopError)
    }
}

} // verus!
