//! Tests for the event filter: the built-in category gate and the optional
//! user predicate.

use bevy_winit::RunnerEvent;
use bevy_winit::Reactivity;
use bevy_winit::UpdateFrequency;
use bevy_winit::UpdateMode;
use bevy_winit::WaitDuration;
use bevy_winit::WakeUp;
use bevy_winit::WinitEventFilter;

/// A filter type with no predicate installed.
type PlainFilter = WinitEventFilter<WakeUp, fn(&RunnerEvent<WakeUp>, UpdateMode) -> bool>;

#[test]
fn test_default() {
    let filter: PlainFilter = WinitEventFilter::default();

    assert!(filter.handle(&RunnerEvent::UserEvent(WakeUp), UpdateMode::continuous()));
}

#[test]
fn test_filter() {
    let filter = WinitEventFilter::new(|e: &RunnerEvent<WakeUp>, _| match e {
        RunnerEvent::UserEvent(_) => false,
        _ => true,
    });

    assert!(!filter.handle(&RunnerEvent::UserEvent(WakeUp), UpdateMode::continuous()));
}

#[test]
fn test_update_mode() {
    let filter: PlainFilter = WinitEventFilter::default();
    let update_mode = UpdateMode {
        reactivity: Reactivity {
            react_to_window_events: false,
            react_to_device_events: false,
            react_to_user_events: false,
        },
        update_frequency: UpdateFrequency::TargetInterval(WaitDuration::indefinite()),
    };

    assert!(!filter.handle(&RunnerEvent::UserEvent(WakeUp), update_mode));
}

#[test]
fn closed_device_gate_overrides_predicate() {
    // The predicate says yes to everything, but a reactive mode with the
    // device gate closed absorbs the device event before the predicate.
    let filter = WinitEventFilter::new(|_: &RunnerEvent<WakeUp>, _| true);
    let mode = UpdateMode::reactive_low_power_at_target_interval(WaitDuration::from_secs(1));

    assert!(!filter.handle(&RunnerEvent::DeviceEvent, mode));
    assert!(filter.handle(&RunnerEvent::WindowEvent, mode));
    assert!(filter.handle(&RunnerEvent::UserEvent(WakeUp), mode));
}

#[test]
fn continuous_mode_opens_every_category_gate() {
    // Continuous frequency opens all three category gates, even when every
    // reactivity flag is off.
    let filter: PlainFilter = WinitEventFilter::default();
    let mode = UpdateMode {
        reactivity: Reactivity {
            react_to_window_events: false,
            react_to_device_events: false,
            react_to_user_events: false,
        },
        update_frequency: UpdateFrequency::Continuous,
    };

    assert!(filter.handle(&RunnerEvent::WindowEvent, mode));
    assert!(filter.handle(&RunnerEvent::DeviceEvent, mode));
    assert!(filter.handle(&RunnerEvent::UserEvent(WakeUp), mode));
}

#[test]
fn uncategorized_events_never_wake() {
    // Lifecycle signals and timer ticks pass through no gate, even in
    // continuous mode with no predicate installed.
    let filter: PlainFilter = WinitEventFilter::default();
    let mode = UpdateMode::continuous();

    assert!(!filter.handle(&RunnerEvent::AboutToWait, mode));
    assert!(!filter.handle(&RunnerEvent::Suspended, mode));
    assert!(!filter.handle(&RunnerEvent::Resumed, mode));
    assert!(!filter.handle(&RunnerEvent::LoopExiting, mode));
    assert!(!filter.handle(&RunnerEvent::MemoryWarning, mode));
}

#[test]
fn predicate_narrows_open_gate() {
    // When the category rule lets the event through, the installed
    // predicate decides.
    let filter = WinitEventFilter::new(|e: &RunnerEvent<WakeUp>, _| {
        matches!(e, RunnerEvent::WindowEvent)
    });
    let mode = UpdateMode::reactive_at_target_interval(WaitDuration::from_secs(1));

    assert!(filter.handle(&RunnerEvent::WindowEvent, mode));
    assert!(!filter.handle(&RunnerEvent::DeviceEvent, mode));
    assert!(!filter.handle(&RunnerEvent::UserEvent(WakeUp), mode));
}
