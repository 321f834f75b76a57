//! Tests for the update-mode policy: the canned configurations, the mode
//! selection, and the wait-duration model.

use bevy_winit::Reactivity;
use bevy_winit::UpdateFrequency;
use bevy_winit::UpdateMode;
use bevy_winit::WaitDuration;
use bevy_winit::WinitSettings;

#[test]
fn wait_duration_from_secs_and_nanos() {
    assert_eq!(WaitDuration::from_secs(60), WaitDuration { secs: 60, nanos: 0 });
    assert_eq!(
        WaitDuration::from_nanos(2_500_000_000),
        WaitDuration { secs: 2, nanos: 500_000_000 }
    );
    assert_eq!(WaitDuration::from_nanos(16_666_667), WaitDuration { secs: 0, nanos: 16_666_667 });
    assert_eq!(
        WaitDuration::indefinite(),
        WaitDuration { secs: u64::MAX, nanos: 999_999_999 }
    );
}

#[test]
fn reactivity_constructors() {
    assert_eq!(
        Reactivity::reactive(),
        Reactivity {
            react_to_window_events: true,
            react_to_device_events: true,
            react_to_user_events: true,
        }
    );
    assert_eq!(
        Reactivity::reactive_low_power(),
        Reactivity {
            react_to_window_events: true,
            react_to_device_events: false,
            react_to_user_events: true,
        }
    );
    assert_eq!(
        Reactivity::manual(),
        Reactivity {
            react_to_window_events: false,
            react_to_device_events: false,
            react_to_user_events: true,
        }
    );
}

#[test]
fn update_mode_constructors() {
    let continuous = UpdateMode::continuous();
    assert_eq!(continuous.reactivity, Reactivity::reactive());
    assert_eq!(continuous.update_frequency, UpdateFrequency::Continuous);

    let second = WaitDuration::from_secs(1);
    let reactive = UpdateMode::reactive_at_target_interval(second);
    assert_eq!(reactive.reactivity, Reactivity::reactive());
    assert_eq!(reactive.update_frequency, UpdateFrequency::TargetInterval(second));

    let low_power = UpdateMode::reactive_low_power_at_target_interval(second);
    assert_eq!(low_power.reactivity, Reactivity::reactive_low_power());
    assert_eq!(low_power.update_frequency, UpdateFrequency::TargetInterval(second));
}

#[test]
fn game_settings_values() {
    let settings = WinitSettings::game();
    assert_eq!(settings.focused_mode, UpdateMode::continuous());
    // Sixty updates a second: one interval is 16 666 667 ns, a sixtieth of
    // a second rounded to the nearest nanosecond.
    assert_eq!(
        settings.unfocused_mode,
        UpdateMode::reactive_at_target_interval(WaitDuration { secs: 0, nanos: 16_666_667 })
    );
}

#[test]
fn desktop_app_settings_values() {
    let settings = WinitSettings::desktop_app();
    assert_eq!(
        settings.focused_mode,
        UpdateMode::reactive_at_target_interval(WaitDuration::from_secs(1))
    );
    assert_eq!(
        settings.unfocused_mode,
        UpdateMode::reactive_low_power_at_target_interval(WaitDuration::from_secs(60))
    );
}

#[test]
fn default_settings_are_game_settings() {
    assert_eq!(WinitSettings::default(), WinitSettings::game());
}

#[test]
fn update_mode_selects_by_focus() {
    let settings = WinitSettings::desktop_app();
    assert_eq!(settings.update_mode(true), settings.focused_mode);
    assert_eq!(settings.update_mode(false), settings.unfocused_mode);
}

#[test]
fn update_mode_selection_is_idempotent() {
    // Applying the same settings twice in succession yields identical
    // selections on both calls.
    let first = WinitSettings::desktop_app();
    let second = first.clone();
    assert_eq!(first.update_mode(true), second.update_mode(true));
    assert_eq!(first.update_mode(false), second.update_mode(false));
    assert_eq!(first.update_mode(true), first.update_mode(true));
}
