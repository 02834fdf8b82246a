use std::sync::{Arc, Mutex};
use winshift::{
    FocusChangeHandler, Phase, Platform, Reaction, Resource, Teardown, Wake, WindowFocusHook,
    WinshiftError,
};

struct Recorder {
    seen: Arc<Mutex<Vec<String>>>,
}

impl FocusChangeHandler for Recorder {
    fn on_focus_change(&self, window_title: String) {
        self.seen.lock().unwrap().push(window_title);
    }
}

fn recording_hook() -> (WindowFocusHook<Recorder>, Arc<Mutex<Vec<String>>>) {
    let seen = Arc::new(Mutex::new(Vec::new()));
    (WindowFocusHook::new(Recorder { seen: seen.clone() }), seen)
}

fn active_hook(platform: Platform) -> (WindowFocusHook<Recorder>, Arc<Mutex<Vec<String>>>) {
    let (mut hook, seen) = recording_hook();
    assert_eq!(hook.run(Some(platform)), Ok(()));
    while hook.pending().is_some() {
        hook.acquired();
    }
    assert_eq!(hook.phase(), Phase::Active);
    (hook, seen)
}

fn seen_titles(seen: &Arc<Mutex<Vec<String>>>) -> Vec<String> {
    seen.lock().unwrap().clone()
}

#[test]
fn new_hook_is_idle() {
    let (hook, seen) = recording_hook();
    assert_eq!(hook.phase(), Phase::Idle);
    assert_eq!(hook.pending(), None);
    assert!(seen_titles(&seen).is_empty());
}

#[test]
fn stop_without_run_is_a_stop_error_every_time() {
    let (mut hook, _seen) = recording_hook();
    assert_eq!(hook.stop(), Err(WinshiftError::StopError));
    assert_eq!(hook.stop(), Err(WinshiftError::StopError));
    assert_eq!(hook.phase(), Phase::Idle);
    assert_eq!(hook.run(Some(Platform::Cocoa)), Ok(()));
    assert_eq!(hook.on_wake(Wake::Nothing), Reaction::Leave);
    assert_eq!(hook.phase(), Phase::Starting);
}

#[test]
fn run_without_platform_fails_and_stays_idle() {
    let (mut hook, _seen) = recording_hook();
    assert_eq!(
        hook.run(None),
        Err(WinshiftError::PlatformError("Unsupported platform".to_string()))
    );
    assert_eq!(hook.phase(), Phase::Idle);
    assert_eq!(hook.pending(), None);
}

#[test]
fn run_acquires_the_plan_in_order() {
    let (mut hook, _seen) = recording_hook();
    assert_eq!(hook.run(Some(Platform::X11)), Ok(()));
    assert_eq!(hook.phase(), Phase::Starting);
    assert_eq!(hook.pending(), Some(Resource::WakeChannel));
    hook.acquired();
    assert_eq!(hook.pending(), Some(Resource::Connection));
    hook.acquired();
    assert_eq!(hook.pending(), Some(Resource::ErrorHandler));
    assert_eq!(hook.phase(), Phase::Starting);
    hook.acquired();
    assert_eq!(hook.pending(), None);
    assert_eq!(hook.phase(), Phase::Active);
    hook.acquired();
    assert_eq!(hook.phase(), Phase::Active);
    assert_eq!(
        hook.finish(),
        Teardown {
            release: vec![Resource::ErrorHandler, Resource::Connection, Resource::WakeChannel],
            outcome: Ok(()),
        }
    );
}

#[test]
fn stop_before_any_event_ends_the_run_cleanly() {
    let (mut hook, seen) = active_hook(Platform::X11);
    assert_eq!(hook.stop(), Ok(()));
    assert_eq!(hook.on_wake(Wake::Cancelled), Reaction::Leave);
    let teardown = hook.finish();
    assert_eq!(teardown.outcome, Ok(()));
    assert_eq!(
        teardown.release,
        vec![Resource::ErrorHandler, Resource::Connection, Resource::WakeChannel]
    );
    assert_eq!(hook.phase(), Phase::Idle);
    assert!(seen_titles(&seen).is_empty());
}

#[test]
fn stop_flag_alone_ends_a_polling_loop() {
    let (mut hook, _seen) = active_hook(Platform::Cocoa);
    assert_eq!(hook.on_wake(Wake::Nothing), Reaction::Wait);
    assert_eq!(hook.stop(), Ok(()));
    assert_eq!(hook.stop(), Ok(()));
    assert_eq!(hook.on_wake(Wake::Nothing), Reaction::Leave);
    assert_eq!(hook.on_wake(Wake::Notification), Reaction::Leave);
}

#[test]
fn stop_during_setup_is_seen_by_the_first_wait() {
    let (mut hook, _seen) = recording_hook();
    assert_eq!(hook.run(Some(Platform::X11)), Ok(()));
    hook.acquired();
    assert_eq!(hook.stop(), Ok(()));
    hook.acquired();
    hook.acquired();
    assert_eq!(hook.phase(), Phase::Active);
    assert_eq!(hook.on_wake(Wake::Notification), Reaction::Leave);
    assert_eq!(hook.finish().outcome, Ok(()));
}

#[test]
fn failed_connection_is_an_initialization_error_and_stop_afterwards_is_harmless() {
    let (mut hook, seen) = recording_hook();
    assert_eq!(hook.run(Some(Platform::X11)), Ok(()));
    hook.acquired();
    assert_eq!(hook.pending(), Some(Resource::Connection));
    let teardown = hook.finish();
    assert_eq!(teardown.outcome, Err(WinshiftError::InitializationError));
    assert_eq!(teardown.release, vec![Resource::WakeChannel]);
    assert_eq!(hook.phase(), Phase::Idle);
    assert_eq!(hook.stop(), Err(WinshiftError::StopError));
    assert_eq!(hook.phase(), Phase::Idle);
    assert!(seen_titles(&seen).is_empty());
}

#[test]
fn failed_wake_channel_releases_nothing() {
    let (mut hook, _seen) = recording_hook();
    assert_eq!(hook.run(Some(Platform::X11)), Ok(()));
    let teardown = hook.finish();
    assert_eq!(teardown.outcome, Err(WinshiftError::InitializationError));
    assert_eq!(teardown.release, Vec::<Resource>::new());
}

#[test]
fn failed_event_hook_is_a_hook_error() {
    let (mut hook, _seen) = recording_hook();
    assert_eq!(hook.run(Some(Platform::Win32)), Ok(()));
    assert_eq!(hook.pending(), Some(Resource::EventHook));
    let teardown = hook.finish();
    assert_eq!(teardown.outcome, Err(WinshiftError::HookError));
    assert!(teardown.release.is_empty());
}

#[test]
fn failed_second_subscription_releases_the_first_and_the_binding() {
    let (mut hook, _seen) = recording_hook();
    assert_eq!(hook.run(Some(Platform::Cocoa)), Ok(()));
    hook.acquired();
    hook.acquired();
    assert_eq!(hook.pending(), Some(Resource::WindowSubscription));
    let teardown = hook.finish();
    assert_eq!(teardown.outcome, Err(WinshiftError::HookError));
    assert_eq!(
        teardown.release,
        vec![Resource::ApplicationSubscription, Resource::ObserverBinding]
    );
}

#[test]
fn cocoa_teardown_unsubscribes_before_it_releases_the_binding() {
    let (mut hook, _seen) = active_hook(Platform::Cocoa);
    assert_eq!(
        hook.finish().release,
        vec![
            Resource::WindowSubscription,
            Resource::ApplicationSubscription,
            Resource::ObserverBinding
        ]
    );
}

#[test]
fn finish_of_an_idle_hook_releases_nothing() {
    let (mut hook, _seen) = recording_hook();
    assert_eq!(hook.finish(), Teardown { release: Vec::new(), outcome: Ok(()) });
    assert_eq!(hook.phase(), Phase::Idle);
}

#[test]
fn observer_sees_runs_collapsed() {
    let (mut hook, seen) = active_hook(Platform::Win32);
    let mut invoked = Vec::new();
    for title in ["A", "A", "B", "B", "B", "A"] {
        invoked.push(hook.notify(Some(title.to_string())));
    }
    assert_eq!(invoked, vec![true, false, true, false, false, true]);
    assert_eq!(seen_titles(&seen), vec!["A".to_string(), "B".to_string(), "A".to_string()]);
}

#[test]
fn unresolved_title_is_skipped_and_the_loop_goes_on() {
    let (mut hook, seen) = active_hook(Platform::X11);
    assert!(hook.notify(Some("Editor".to_string())));
    assert!(!hook.notify(None));
    assert!(seen_titles(&seen) == vec!["Editor".to_string()]);
    assert_eq!(hook.on_wake(Wake::Notification), Reaction::Resolve);
    assert!(!hook.notify(Some("Editor".to_string())));
    assert!(hook.notify(Some("Browser".to_string())));
    assert_eq!(seen_titles(&seen), vec!["Editor".to_string(), "Browser".to_string()]);
}

#[test]
fn first_title_of_a_new_run_is_delivered_again() {
    let (mut hook, seen) = active_hook(Platform::X11);
    assert!(hook.notify(Some("Editor".to_string())));
    assert_eq!(hook.stop(), Ok(()));
    assert_eq!(hook.finish().outcome, Ok(()));
    assert_eq!(hook.run(Some(Platform::X11)), Ok(()));
    while hook.pending().is_some() {
        hook.acquired();
    }
    assert_eq!(hook.on_wake(Wake::Nothing), Reaction::Wait);
    assert!(hook.notify(Some("Editor".to_string())));
    assert_eq!(seen_titles(&seen), vec!["Editor".to_string(), "Editor".to_string()]);
}

#[test]
fn empty_first_title_reaches_the_observer() {
    let (mut hook, seen) = active_hook(Platform::Cocoa);
    assert!(hook.notify(Some(String::new())));
    assert!(!hook.notify(Some(String::new())));
    assert_eq!(seen_titles(&seen), vec![String::new()]);
}

#[test]
fn titles_outside_an_active_run_are_not_delivered() {
    let (mut hook, seen) = recording_hook();
    assert!(!hook.notify(Some("Early".to_string())));
    assert_eq!(hook.run(Some(Platform::Win32)), Ok(()));
    assert!(!hook.notify(Some("During setup".to_string())));
    hook.acquired();
    hook.acquired();
    assert!(hook.notify(Some("During setup".to_string())));
    hook.finish();
    assert!(!hook.notify(Some("Late".to_string())));
    assert_eq!(seen_titles(&seen), vec!["During setup".to_string()]);
}

#[test]
fn events_read_after_a_stop_request_are_still_delivered() {
    let (mut hook, seen) = active_hook(Platform::X11);
    assert_eq!(hook.stop(), Ok(()));
    assert!(hook.notify(Some("Last".to_string())));
    assert_eq!(hook.on_wake(Wake::Notification), Reaction::Leave);
    assert_eq!(seen_titles(&seen), vec!["Last".to_string()]);
}

#[test]
fn wake_reactions_of_an_active_run() {
    let (hook, _seen) = active_hook(Platform::X11);
    assert_eq!(hook.on_wake(Wake::Cancelled), Reaction::Leave);
    assert_eq!(hook.on_wake(Wake::Notification), Reaction::Resolve);
    assert_eq!(hook.on_wake(Wake::Nothing), Reaction::Wait);
}

#[test]
fn an_idle_hook_leaves_on_every_wake() {
    let (hook, _seen) = recording_hook();
    assert_eq!(hook.on_wake(Wake::Cancelled), Reaction::Leave);
    assert_eq!(hook.on_wake(Wake::Notification), Reaction::Leave);
    assert_eq!(hook.on_wake(Wake::Nothing), Reaction::Leave);
}
