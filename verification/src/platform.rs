//! The native facilities a run holds, per platform, and the order in which
//! they are acquired and released.

use crate::error::WinshiftError;
use vstd::prelude::*;

verus! {

/// The kind of native event source a host offers.
#[derive(Clone, Copy, Debug, PartialEq, Eq, Structural)]
pub enum Platform {
    /// A connection that is polled together with a wake channel.
    X11,
    /// A message pump that the operating system calls back.
    Win32,
    /// A cooperative run loop with notification subscriptions.
    Cocoa,
}

/// A native facility that a run acquires and has to give back.
#[derive(Clone, Copy, Debug, PartialEq, Eq, Structural)]
pub enum Resource {
    /// The channel through which a stop request wakes the waiting loop.
    WakeChannel,
    /// The connection to the display server.
    Connection,
    /// The replacement of the connection's error handler.
    ErrorHandler,
    /// The registration of the focus and title event hook.
    EventHook,
    /// The binding that lets native callbacks reach the observer.
    ObserverBinding,
    /// The subscription to changes of the active application.
    ApplicationSubscription,
    /// The subscription to changes of the active window.
    WindowSubscription,
}

/// The resources a run on `platform` acquires, in order of acquisition.
pub open spec fn acquisition_plan(platform: Platform) -> Seq<Resource> {
    match platform {
        Platform::X11 => seq![Resource::WakeChannel, Resource::Connection, Resource::ErrorHandler],
        Platform::Win32 => seq![Resource::EventHook, Resource::ObserverBinding],
        Platform::Cocoa => seq![
            Resource::ObserverBinding,
            Resource::ApplicationSubscription,
            Resource::WindowSubscription,
        ],
    }
}

/// A resource whose acquisition is the registration of a notification hook.
pub open spec fn is_registration(resource: Resource) -> bool {
    resource == Resource::EventHook || resource == Resource::ApplicationSubscription || resource
        == Resource::WindowSubscription
}

/// The error a run reports when `resource` cannot be acquired.
pub open spec fn setup_error_spec(resource: Resource) -> WinshiftError {
    if is_registration(resource) {
        WinshiftError::HookError
    } else {
        WinshiftError::InitializationError
    }
}

/// The resource acquired at position `index` of a run on `platform`, if the
/// plan is that long.
pub fn planned_resource(platform: Platform, index: usize) -> (resource: Option<Resource>)
    ensures
        index < acquisition_plan(platform).len() ==> resource == Some(
            acquisition_plan(platform)[index as int],
        ),
        index >= acquisition_plan(platform).len() ==> resource is None,
{
    match platform {
        Platform::X11 => {
            if index == 0 {
                Some(Resource::WakeChannel)
            } else if index == 1 {
                Some(Resource::Connection)
            } else if index == 2 {
                Some(Resource::ErrorHandler)
            } else {
                None
            }
        },
        Platform::Win32 => {
            if index == 0 {
                Some(Resource::EventHook)
            } else if index == 1 {
                Some(Resource::ObserverBinding)
            } else {
                None
            }
        },
        Platform::Cocoa => {
            if index == 0 {
                Some(Resource::ObserverBinding)
            } else if index == 1 {
                Some(Resource::ApplicationSubscription)
            } else if index == 2 {
                Some(Resource::WindowSubscription)
            } else {
                None
            }
        },
    }
}

/// The error that ends a run whose acquisition of `resource` was refused.
pub fn setup_error(resource: Resource) -> (error: WinshiftError)
    ensures
        error == setup_error_spec(resource),
{
    match resource {
        Resource::EventHook => WinshiftError::HookError,
        Resource::ApplicationSubscription => WinshiftError::HookError,
        Resource::WindowSubscription => WinshiftError::HookError,
        Resource::WakeChannel => WinshiftError::InitializationError,
        Resource::Connection => WinshiftError::InitializationError,
        Resource::ErrorHandler => WinshiftError::InitializationError,
        Resource::ObserverBinding => WinshiftError::InitializationError,
    }
}

/// No plan asks for the same resource twice.
pub proof fn lemma_plan_has_no_duplicates(platform: Platform)
    ensures
        acquisition_plan(platform).no_duplicates(),
{
}

} // verus!
