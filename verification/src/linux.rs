//! The decisions of the polled event source: an X11 connection that is
//! watched together with a wake channel.
//!
//! The host reads events and properties from the display server and hands
//! them over as plain values; what they mean is decided here.

use crate::error::WinshiftError;
use crate::hook::Wake;
use crate::title::{before_nul, title_from_bytes, utf8_lossy};
use vstd::prelude::*;
use vstd::utf8::{decode_utf8, valid_utf8};

verus! {

/// The atoms the source works with, as the display server numbers them.
#[derive(Clone, Copy, Debug, PartialEq, Eq, Structural)]
pub struct Atoms {
    /// The root window's property that names the active window.
    pub active_window: u64,
    /// The legacy title property.
    pub wm_name: u64,
    /// The extended title property.
    pub net_wm_name: u64,
    /// The type of UTF-8 text.
    pub utf8_string: u64,
    /// The type of legacy text.
    pub string: u64,
    /// The type of a window identifier.
    pub window: u64,
}

/// An event of the display server, reduced to what the source reads of it.
#[derive(Clone, Copy, Debug, PartialEq, Eq, Structural)]
pub enum XEvent {
    /// A property of a window changed.
    PropertyNotify { window: u64, atom: u64 },
    /// A window was created.
    CreateNotify,
    /// A window was destroyed.
    DestroyNotify,
    /// Any other event.
    Other,
}

/// Why an event calls for a title resolution.
#[derive(Clone, Copy, Debug, PartialEq, Eq, Structural)]
pub enum Trigger {
    /// The root window's active-window property changed.
    ActiveWindowChanged,
    /// A title property of the active window changed.
    TitleChanged,
    /// A window was created or destroyed.
    WindowSetChanged,
}

/// The two properties that may hold a window's title, in the order in which
/// they are tried.
#[derive(Clone, Copy, Debug, PartialEq, Eq, Structural)]
pub enum TitleProperty {
    /// The extended property, in UTF-8.
    NetWmName,
    /// The legacy property.
    WmName,
}

/// A property read that the host is to make, from the property's start and
/// without deleting it.
#[derive(Clone, Copy, Debug, PartialEq, Eq, Structural)]
pub struct PropertyRequest {
    pub window: u64,
    pub property: u64,
    /// The type the value is asked in.
    pub kind: u64,
    /// The most that is read, in units of four bytes.
    pub length: i64,
}

/// What a property read gave: the status the display library returned, and
/// the value's bytes where it handed any out.
#[derive(Debug, PartialEq, Eq)]
pub struct PropertyReply {
    pub status: i32,
    pub data: Option<Vec<u8>>,
}

/// Where the resolution of a title stands.
#[derive(Debug, PartialEq, Eq)]
pub enum Lookup {
    /// The host is to read this property next.
    Ask(TitleProperty),
    /// The title is resolved.
    Found(String),
    /// The window has no title.
    Missing,
}

/// The most that is read of a title property, in units of four bytes.
pub const TITLE_LENGTH: i64 = 1024;

/// The most that is read of the active-window property, in units of four
/// bytes.
pub const WINDOW_LENGTH: i64 = 1;

/// The value a reply carries: the bytes handed out by a read that succeeded.
pub open spec fn reply_value(reply: PropertyReply) -> Option<Seq<u8>> {
    if reply.status == 0 {
        match reply.data {
            Some(bytes) => Some(bytes@),
            None => None,
        }
    } else {
        None
    }
}

/// The property that is tried after `asked` gave no value.
pub open spec fn fallback(asked: TitleProperty) -> Option<TitleProperty> {
    match asked {
        TitleProperty::NetWmName => Some(TitleProperty::WmName),
        TitleProperty::WmName => None,
    }
}

/// What a wait on the connection and the wake channel means: with `ready`
/// the number of descriptors reported ready, the stop signal wins over
/// pending events, and a wait that failed or was interrupted means nothing.
pub open spec fn select_wake(ready: i32, stop_ready: bool, display_ready: bool) -> Wake {
    if ready > 0 && stop_ready {
        Wake::Cancelled
    } else if ready > 0 && display_ready {
        Wake::Notification
    } else {
        Wake::Nothing
    }
}

/// The bound that a wait on both descriptors is given: one more than the
/// larger of them, where both fit into a descriptor set of `set_size` and
/// the bound fits its type.
pub open spec fn select_bound_spec(display_fd: i32, wake_fd: i32, set_size: usize) -> Option<i32> {
    if 0 <= display_fd < set_size && 0 <= wake_fd < set_size && display_fd < i32::MAX && wake_fd
        < i32::MAX {
        Some(
            if display_fd >= wake_fd {
                (display_fd + 1) as i32
            } else {
                (wake_fd + 1) as i32
            },
        )
    } else {
        None
    }
}

/// Follows the active window of one display.
#[derive(Clone, Copy, Debug, PartialEq, Eq, Structural)]
pub struct FocusTracker {
    /// The root window.
    pub root: u64,
    pub atoms: Atoms,
    /// The window last known to be active; 0 while none is known.
    pub active_window: u64,
}

impl TitleProperty {
    /// The property that is tried first.
    pub fn first() -> (property: TitleProperty)
        ensures
            property == TitleProperty::NetWmName,
    {
        TitleProperty::NetWmName
    }
}

impl Trigger {
    /// The active window has to be read anew before the title is resolved.
    pub open spec fn asks_active_window_spec(self) -> bool {
        self != Trigger::TitleChanged
    }

    /// Tells whether the host has to read the active window anew.
    pub fn asks_active_window(self) -> (asks: bool)
        ensures
            asks == self.asks_active_window_spec(),
    {
        match self {
            Trigger::TitleChanged => false,
            Trigger::ActiveWindowChanged => true,
            Trigger::WindowSetChanged => true,
        }
    }
}

impl FocusTracker {
    /// Why `event` calls for a title resolution, if it does.
    pub open spec fn trigger_of(self, event: XEvent) -> Option<Trigger> {
        match event {
            XEvent::PropertyNotify { window, atom } => {
                if atom == self.atoms.active_window && window == self.root {
                    Some(Trigger::ActiveWindowChanged)
                } else if (atom == self.atoms.wm_name || atom == self.atoms.net_wm_name) && window
                    == self.active_window {
                    Some(Trigger::TitleChanged)
                } else {
                    None
                }
            },
            XEvent::CreateNotify => Some(Trigger::WindowSetChanged),
            XEvent::DestroyNotify => Some(Trigger::WindowSetChanged),
            XEvent::Other => None,
        }
    }

    /// The window whose title is to be resolved once the active window was
    /// reported for `trigger`, if any.
    pub open spec fn target_of(self, trigger: Trigger, reported: u64) -> Option<u64> {
        match trigger {
            Trigger::ActiveWindowChanged => if reported != self.active_window {
                Some(reported)
            } else {
                None
            },
            Trigger::TitleChanged => Some(self.active_window),
            Trigger::WindowSetChanged => Some(reported),
        }
    }

    /// The window that is tracked as active after that report.
    pub open spec fn active_after(self, trigger: Trigger, reported: u64) -> u64 {
        if trigger.asks_active_window_spec() {
            reported
        } else {
            self.active_window
        }
    }

    /// A tracker that knows no active window yet.
    pub fn new(root: u64, atoms: Atoms) -> (tracker: Self)
        ensures
            tracker == (FocusTracker { root, atoms, active_window: 0 }),
    {
        FocusTracker { root, atoms, active_window: 0 }
    }

    /// Decides whether `event` is relevant, and why.
    pub fn classify(&self, event: XEvent) -> (trigger: Option<Trigger>)
        ensures
            trigger == self.trigger_of(event),
    {
        match event {
            XEvent::PropertyNotify { window, atom } => {
                if atom == self.atoms.active_window && window == self.root {
                    Some(Trigger::ActiveWindowChanged)
                } else if (atom == self.atoms.wm_name || atom == self.atoms.net_wm_name) && window
                    == self.active_window {
                    Some(Trigger::TitleChanged)
                } else {
                    None
                }
            },
            XEvent::CreateNotify => Some(Trigger::WindowSetChanged),
            XEvent::DestroyNotify => Some(Trigger::WindowSetChanged),
            XEvent::Other => None,
        }
    }

    /// The read that reports the active window.
    pub fn active_window_request(&self) -> (request: PropertyRequest)
        ensures
            request == (PropertyRequest {
                window: self.root,
                property: self.atoms.active_window,
                kind: self.atoms.window,
                length: WINDOW_LENGTH,
            }),
    {
        PropertyRequest {
            window: self.root,
            property: self.atoms.active_window,
            kind: self.atoms.window,
            length: WINDOW_LENGTH,
        }
    }

    /// The read of one title property of `window`.
    pub fn title_request(&self, window: u64, property: TitleProperty) -> (request: PropertyRequest)
        ensures
            request.window == window,
            request.length == TITLE_LENGTH,
            property == TitleProperty::NetWmName ==> request.property == self.atoms.net_wm_name
                && request.kind == self.atoms.utf8_string,
            property == TitleProperty::WmName ==> request.property == self.atoms.wm_name
                && request.kind == self.atoms.string,
    {
        match property {
            TitleProperty::NetWmName => PropertyRequest {
                window,
                property: self.atoms.net_wm_name,
                kind: self.atoms.utf8_string,
                length: TITLE_LENGTH,
            },
            TitleProperty::WmName => PropertyRequest {
                window,
                property: self.atoms.wm_name,
                kind: self.atoms.string,
                length: TITLE_LENGTH,
            },
        }
    }

    /// Takes the active window reported for `trigger` and returns the window
    /// whose title is to be resolved. A change of the active-window property
    /// counts only if another window is active now; a created or destroyed
    /// window forces the resolution; a changed title concerns the window
    /// already tracked, whatever is reported.
    pub fn focus(&mut self, trigger: Trigger, reported: u64) -> (target: Option<u64>)
        ensures
            target == old(self).target_of(trigger, reported),
            final(self).active_window == old(self).active_after(trigger, reported),
            final(self).root == old(self).root,
            final(self).atoms == old(self).atoms,
    {
        match trigger {
            Trigger::ActiveWindowChanged => {
                if reported != self.active_window {
                    self.active_window = reported;
                    Some(reported)
                } else {
                    None
                }
            },
            Trigger::TitleChanged => Some(self.active_window),
            Trigger::WindowSetChanged => {
                self.active_window = reported;
                Some(reported)
            },
        }
    }
}

/// The active window that a read of the root window's property reports:
/// the identifier read, or 0 where the read failed or gave none.
pub fn active_window_from_reply(status: i32, item: Option<u64>) -> (window: u64)
    ensures
        status == 0 && item is Some ==> window == item->0,
        status != 0 || item is None ==> window == 0,
{
    match item {
        Some(window) => {
            if status == 0 {
                window
            } else {
                0
            }
        },
        None => 0,
    }
}

/// Continues the resolution of a title after the read of `asked`: a value
/// resolves it, a missing value leads to the next property, and after the
/// last one the window has no title.
pub fn title_lookup(asked: TitleProperty, reply: &PropertyReply) -> (lookup: Lookup)
    ensures
        reply_value(*reply) matches Some(bytes) ==> (lookup matches Lookup::Found(title) && title@
            == utf8_lossy(before_nul(bytes)) && (valid_utf8(before_nul(bytes)) ==> title@
            == decode_utf8(before_nul(bytes)))),
        reply_value(*reply) is None ==> lookup == (match fallback(asked) {
            Some(next) => Lookup::Ask(next),
            None => Lookup::Missing,
        }),
{
    if reply.status == 0 {
        match &reply.data {
            Some(bytes) => {
                return Lookup::Found(title_from_bytes(bytes.as_slice()));
            },
            None => {},
        }
    }
    match asked {
        TitleProperty::NetWmName => Lookup::Ask(TitleProperty::WmName),
        TitleProperty::WmName => Lookup::Missing,
    }
}

/// Interprets the end of a wait on the connection and the wake channel.
pub fn wake_from_select(ready: i32, stop_ready: bool, display_ready: bool) -> (wake: Wake)
    ensures
        wake == select_wake(ready, stop_ready, display_ready),
{
    if ready > 0 && stop_ready {
        Wake::Cancelled
    } else if ready > 0 && display_ready {
        Wake::Notification
    } else {
        Wake::Nothing
    }
}

/// Computes the bound for a wait on both descriptors, or nothing where one
/// of them does not fit into a descriptor set or the bound does not fit.
pub fn select_bound(display_fd: i32, wake_fd: i32, set_size: usize) -> (bound: Option<i32>)
    ensures
        bound == select_bound_spec(display_fd, wake_fd, set_size),
{
    if display_fd < 0 || wake_fd < 0 {
        return None;
    }
    if display_fd as usize >= set_size || wake_fd as usize >= set_size {
        return None;
    }
    let larger = if display_fd >= wake_fd {
        display_fd
    } else {
        wake_fd
    };
    if larger == i32::MAX {
        return None;
    }
    Some(larger + 1)
}

/// Judges the write of the stop signal's single byte: it was delivered
/// exactly when one byte was written.
pub fn stop_hook(written: isize) -> (signalled: Result<(), WinshiftError>)
    ensures
        written == 1 ==> signalled is Ok,
        written != 1 ==> signalled == Err::<(), WinshiftError>(WinshiftError::StopError),
{
    if written == 1 {
        Ok(())
    } else {
        Err(WinshiftError::StopError)
    }
}

} // verus!
