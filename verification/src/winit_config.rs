//! The update-mode policy: how often the engine may update, and which event
//! categories are allowed to wake a waiting loop.

use vstd::prelude::*;

verus! {

/// A span of time, stored as whole seconds plus a sub-second nanosecond
/// part, exactly as the platform's duration type stores it.  The policy
/// only ever stores and compares waits; it never adds them, so the pair
/// representation is all that is needed.
///
/// A maximal wait means "wait indefinitely unless an event wakes the loop".
#[derive(Debug, Clone, Copy, PartialEq, Eq, Structural)]
pub struct WaitDuration {
    /// The whole seconds of the wait.
    pub secs: u64,
    /// The sub-second part of the wait, in nanoseconds; kept below one
    /// second by the constructors.
    pub nanos: u32,
}

impl WaitDuration {
    /// A well-formed wait keeps its nanosecond part below one second.
    pub open spec fn wf(self) -> bool {
        self.nanos < 1_000_000_000
    }

    /// The whole span in nanoseconds.
    pub open spec fn as_nanos(self) -> int {
        self.secs * 1_000_000_000 + self.nanos
    }

    /// A wait of exactly `secs` seconds.
    pub fn from_secs(secs: u64) -> (r: Self)
        ensures
            r.secs == secs,
            r.nanos == 0,
            r.wf(),
    {
        WaitDuration { secs, nanos: 0 }
    }

    /// A wait of exactly `nanos` nanoseconds.
    pub fn from_nanos(nanos: u64) -> (r: Self)
        ensures
            r.as_nanos() == nanos,
            r.wf(),
    {
        let secs: u64 = nanos / 1_000_000_000;
        let rest: u64 = nanos % 1_000_000_000;
        WaitDuration { secs, nanos: rest as u32 }
    }

    /// The longest representable wait: the loop sleeps until an event
    /// arrives.
    pub fn indefinite() -> (r: Self)
        ensures
            r.secs == u64::MAX,
            r.nanos == 999_999_999,
            r.wf(),
    {
        WaitDuration { secs: 18_446_744_073_709_551_615, nanos: 999_999_999 }
    }
}

/// Which event categories may wake a waiting loop.  Events outside the
/// three categories (lifecycle signals, timer ticks) never wake the loop
/// through the filter, whatever these flags say.
#[derive(Debug, Clone, Copy, PartialEq, Eq, Structural)]
pub struct Reactivity {
    /// Whether a window event (input, resize, focus, redraw, ...) wakes the loop.
    pub react_to_window_events: bool,
    /// Whether a raw device event (for example mouse motion) wakes the loop.
    pub react_to_device_events: bool,
    /// Whether a user-injected event, sent through the loop's proxy handle,
    /// wakes the loop.
    pub react_to_user_events: bool,
}

impl Reactivity {
    /// React to window, device and user events.
    pub fn reactive() -> (r: Self)
        ensures
            r == (Reactivity {
                react_to_window_events: true,
                react_to_device_events: true,
                react_to_user_events: true,
            }),
    {
        Reactivity {
            react_to_window_events: true,
            react_to_device_events: true,
            react_to_user_events: true,
        }
    }

    /// React to window and user events, but not to device events.
    pub fn reactive_low_power() -> (r: Self)
        ensures
            r == (Reactivity {
                react_to_window_events: true,
                react_to_device_events: false,
                react_to_user_events: true,
            }),
    {
        Reactivity {
            react_to_window_events: true,
            react_to_device_events: false,
            react_to_user_events: true,
        }
    }

    /// React only to user events, not to window or device events.
    pub fn manual() -> (r: Self)
        ensures
            r == (Reactivity {
                react_to_window_events: false,
                react_to_device_events: false,
                react_to_user_events: true,
            }),
    {
        Reactivity {
            react_to_window_events: false,
            react_to_device_events: false,
            react_to_user_events: true,
        }
    }
}

/// How often the engine should update.
#[derive(Debug, Clone, Copy, PartialEq, Eq, Structural)]
pub enum UpdateFrequency {
    /// Update over and over, as fast as possible.
    Continuous,
    /// The approximate time from the start of one update to the next.  It
    /// has no upper bound: an indefinite wait means the loop only updates
    /// when an event wakes it.
    TargetInterval(WaitDuration),
}

/// How the engine should update: how often, and which event categories may
/// wake a waiting loop early.
#[derive(Debug, Clone, Copy, PartialEq, Eq, Structural)]
pub struct UpdateMode {
    /// Which event categories wake the loop before its wait elapses.
    pub reactivity: Reactivity,
    /// How often the engine updates when nothing wakes it early.
    pub update_frequency: UpdateFrequency,
}

impl UpdateMode {
    /// In a reactive mode the loop sleeps between updates; in a continuous
    /// one it runs a new update as soon as the previous one is done.
    pub open spec fn is_reactive(self) -> bool {
        self.update_frequency is TargetInterval
    }

    /// Continuous updates: as frequent as possible.
    pub fn continuous() -> (r: Self)
        ensures
            r.reactivity == (Reactivity {
                react_to_window_events: true,
                react_to_device_events: true,
                react_to_user_events: true,
            }),
            r.update_frequency == UpdateFrequency::Continuous,
    {
        UpdateMode {
            reactivity: Reactivity::reactive(),
            update_frequency: UpdateFrequency::Continuous,
        }
    }

    /// Reactive updates, waiting `interval` between updates unless an event
    /// of any category arrives earlier.
    pub fn reactive_at_target_interval(interval: WaitDuration) -> (r: Self)
        ensures
            r.reactivity == (Reactivity {
                react_to_window_events: true,
                react_to_device_events: true,
                react_to_user_events: true,
            }),
            r.update_frequency == UpdateFrequency::TargetInterval(interval),
    {
        UpdateMode {
            reactivity: Reactivity::reactive(),
            update_frequency: UpdateFrequency::TargetInterval(interval),
        }
    }

    /// Low-power reactive updates, waiting `interval` between updates and
    /// ignoring device events.
    pub fn reactive_low_power_at_target_interval(interval: WaitDuration) -> (r: Self)
        ensures
            r.reactivity == (Reactivity {
                react_to_window_events: true,
                react_to_device_events: false,
                react_to_user_events: true,
            }),
            r.update_frequency == UpdateFrequency::TargetInterval(interval),
    {
        UpdateMode {
            reactivity: Reactivity::reactive_low_power(),
            update_frequency: UpdateFrequency::TargetInterval(interval),
        }
    }
}

/// The driver's settings: one update mode while some window has focus, and
/// one while none has.
#[derive(Debug, Clone, Copy, PartialEq, Eq, Structural)]
pub struct WinitSettings {
    /// The mode in force while some window has focus.
    pub focused_mode: UpdateMode,
    /// The mode in force while no window has focus.
    pub unfocused_mode: UpdateMode,
}

impl WinitSettings {
    /// The mode these settings select under the given focus state.
    pub open spec fn mode_for(self, focused: bool) -> UpdateMode {
        if focused {
            self.focused_mode
        } else {
            self.unfocused_mode
        }
    }

    /// Settings for games: continuous updates while focused, sixty reactive
    /// updates a second otherwise.
    pub fn game() -> (r: Self)
        ensures
            r.focused_mode.reactivity == (Reactivity {
                react_to_window_events: true,
                react_to_device_events: true,
                react_to_user_events: true,
            }),
            r.focused_mode.update_frequency == UpdateFrequency::Continuous,
            r.unfocused_mode.reactivity == (Reactivity {
                react_to_window_events: true,
                react_to_device_events: true,
                react_to_user_events: true,
            }),
            r.unfocused_mode.update_frequency matches UpdateFrequency::TargetInterval(w)
                && w.as_nanos() == 16_666_667,
    {
        WinitSettings {
            focused_mode: UpdateMode::continuous(),
            // One sixtieth of a second, rounded to the nearest nanosecond.
            unfocused_mode: UpdateMode::reactive_at_target_interval(
                WaitDuration::from_nanos(16_666_667),
            ),
        }
    }

    /// Settings for desktop applications: a reactive update every second
    /// while focused, a low-power one every minute otherwise.
    pub fn desktop_app() -> (r: Self)
        ensures
            r.focused_mode.reactivity == (Reactivity {
                react_to_window_events: true,
                react_to_device_events: true,
                react_to_user_events: true,
            }),
            r.focused_mode.update_frequency matches UpdateFrequency::TargetInterval(w)
                && w.as_nanos() == 1_000_000_000,
            r.unfocused_mode.reactivity == (Reactivity {
                react_to_window_events: true,
                react_to_device_events: false,
                react_to_user_events: true,
            }),
            r.unfocused_mode.update_frequency matches UpdateFrequency::TargetInterval(w)
                && w.as_nanos() == 60_000_000_000,
    {
        WinitSettings {
            focused_mode: UpdateMode::reactive_at_target_interval(WaitDuration::from_secs(1)),
            unfocused_mode: UpdateMode::reactive_low_power_at_target_interval(
                WaitDuration::from_secs(60),
            ),
        }
    }

    /// The mode in force right now: the focused mode if some window has
    /// focus, the unfocused mode otherwise.  A pure selection: callers
    /// re-evaluate it after every change of focus or of the settings.
    pub fn update_mode(&self, focused: bool) -> (r: UpdateMode)
        ensures
            r == self.mode_for(focused),
    {
        match focused {
            true => self.focused_mode,
            false => self.unfocused_mode,
        }
    }
}

impl Default for WinitSettings {
    /// The default settings are the game settings.
    fn default() -> (r: Self)
        ensures
            r == (WinitSettings {
                focused_mode: UpdateMode {
                    reactivity: Reactivity {
                        react_to_window_events: true,
                        react_to_device_events: true,
                        react_to_user_events: true,
                    },
                    update_frequency: UpdateFrequency::Continuous,
                },
                unfocused_mode: UpdateMode {
                    reactivity: Reactivity {
                        react_to_window_events: true,
                        react_to_device_events: true,
                        react_to_user_events: true,
                    },
                    update_frequency: UpdateFrequency::TargetInterval(WaitDuration {
                        secs: 0,
                        nanos: 16_666_667,
                    }),
                },
            }),
    {
        WinitSettings::game()
    }
}

/// Selecting a mode is a pure function of the settings and the focus state:
/// two settings values that are equal select the same mode, so applying the
/// same settings twice in succession yields identical selections.
pub proof fn lemma_update_mode_selection_consistent(
    first: WinitSettings,
    second: WinitSettings,
    focused: bool,
)
    requires
        first == second,
    ensures
        first.mode_for(focused) == second.mode_for(focused),
{
}

} // verus!
