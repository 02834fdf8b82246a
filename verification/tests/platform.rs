use winshift::platform::{planned_resource, setup_error};
use winshift::{Platform, Resource, WinshiftError};

#[test]
fn x11_plan() {
    assert_eq!(planned_resource(Platform::X11, 0), Some(Resource::WakeChannel));
    assert_eq!(planned_resource(Platform::X11, 1), Some(Resource::Connection));
    assert_eq!(planned_resource(Platform::X11, 2), Some(Resource::ErrorHandler));
    assert_eq!(planned_resource(Platform::X11, 3), None);
}

#[test]
fn win32_plan() {
    assert_eq!(planned_resource(Platform::Win32, 0), Some(Resource::EventHook));
    assert_eq!(planned_resource(Platform::Win32, 1), Some(Resource::ObserverBinding));
    assert_eq!(planned_resource(Platform::Win32, 2), None);
}

#[test]
fn cocoa_plan() {
    assert_eq!(planned_resource(Platform::Cocoa, 0), Some(Resource::ObserverBinding));
    assert_eq!(planned_resource(Platform::Cocoa, 1), Some(Resource::ApplicationSubscription));
    assert_eq!(planned_resource(Platform::Cocoa, 2), Some(Resource::WindowSubscription));
    assert_eq!(planned_resource(Platform::Cocoa, 3), None);
    assert_eq!(planned_resource(Platform::Cocoa, usize::MAX), None);
}

#[test]
fn refused_registrations_are_hook_errors() {
    assert_eq!(setup_error(Resource::EventHook), WinshiftError::HookError);
    assert_eq!(setup_error(Resource::ApplicationSubscription), WinshiftError::HookError);
    assert_eq!(setup_error(Resource::WindowSubscription), WinshiftError::HookError);
}

#[test]
fn other_refusals_are_initialization_errors() {
    assert_eq!(setup_error(Resource::WakeChannel), WinshiftError::InitializationError);
    assert_eq!(setup_error(Resource::Connection), WinshiftError::InitializationError);
    assert_eq!(setup_error(Resource::ErrorHandler), WinshiftError::InitializationError);
    assert_eq!(setup_error(Resource::ObserverBinding), WinshiftError::InitializationError);
}
