//! The event filter: decides which events count as wake triggers.
//!
//! Two gates stand between an event and the driver's wake flag.  The first
//! is fixed: the current update mode's reactivity flags, applied to the
//! event's category.  The second is an optional predicate supplied by the
//! embedding application, so that it can narrow the built-in gate further
//! (for example to a single key) without re-implementing the category
//! logic.  With no predicate installed every event that passes the first
//! gate wakes the driver: that is this library's documented default.

use vstd::prelude::*;

use crate::event::RunnerEvent;
use crate::winit_config::UpdateFrequency;
use crate::winit_config::UpdateMode;

use core::marker::PhantomData;

verus! {

/// Whether the built-in gate lets `event` through under `mode`: the event
/// must belong to a wake category, and in a reactive mode its category must
/// be enabled.  A continuous mode leaves all three category gates open.
/// Events outside the three categories never pass.
pub open spec fn spec_can_react<T>(mode: UpdateMode, event: RunnerEvent<T>) -> bool {
    match event {
        RunnerEvent::WindowEvent => !mode.is_reactive() || mode.reactivity.react_to_window_events,
        RunnerEvent::DeviceEvent => !mode.is_reactive() || mode.reactivity.react_to_device_events,
        RunnerEvent::UserEvent(_) => !mode.is_reactive() || mode.reactivity.react_to_user_events,
        _ => false,
    }
}

/// The filter an embedding application may install before the loop starts:
/// an optional predicate over the raw event and the mode in force.
pub struct WinitEventFilter<T, F> {
    /// The user predicate, if one is installed.
    pub filter: Option<F>,
    /// Marks the payload type the predicate's events carry.
    pub payload: PhantomData<T>,
}

impl<T, F> Default for WinitEventFilter<T, F> where F: Fn(&RunnerEvent<T>, UpdateMode) -> bool {
    /// The default filter installs no predicate: every event that passes
    /// the built-in category gate wakes the driver.
    fn default() -> (r: Self)
        ensures
            r.filter is None,
    {
        WinitEventFilter { filter: None, payload: PhantomData }
    }
}

impl<T, F> WinitEventFilter<T, F> where F: Fn(&RunnerEvent<T>, UpdateMode) -> bool {
    /// A filter with the given predicate installed.
    pub fn new(filter: F) -> (r: Self)
        ensures
            r.filter == Some(filter),
    {
        WinitEventFilter { filter: Some(filter), payload: PhantomData }
    }

    /// Whether `event` counts as a wake trigger under `mode`.  The
    /// built-in category rule runs first, then the installed predicate, if
    /// any; an event the category rule rejects never wakes the driver,
    /// whatever the predicate would have said.
    pub fn handle(&self, event: &RunnerEvent<T>, update_mode: UpdateMode) -> (r: bool)
        requires
            self.filter matches Some(f) ==> call_requires(f, (event, update_mode)),
        ensures
            !spec_can_react(update_mode, *event) ==> !r,
            spec_can_react(update_mode, *event) && self.filter is None ==> r,
            self.filter matches Some(f) ==> (spec_can_react(update_mode, *event) ==> call_ensures(
                f,
                (event, update_mode),
                r,
            )),
    {
        let continuous = match update_mode.update_frequency {
            UpdateFrequency::Continuous => true,
            UpdateFrequency::TargetInterval(_) => false,
        };
        let can_react = match event {
            RunnerEvent::WindowEvent => continuous
                || update_mode.reactivity.react_to_window_events,
            RunnerEvent::DeviceEvent => continuous
                || update_mode.reactivity.react_to_device_events,
            RunnerEvent::UserEvent(_) => continuous || update_mode.reactivity.react_to_user_events,
            _ => false,
        };
        if !can_react {
            return false;
        }
        match &self.filter {
            Some(f) => f(event, update_mode),
            None => true,
        }
    }
}

/// A device event can never wake a reactive loop whose device gate is
/// closed, whatever predicate is installed: the built-in gate absorbs it
/// before any predicate runs.
pub proof fn lemma_closed_device_gate_absorbs<T>(mode: UpdateMode, event: RunnerEvent<T>)
    requires
        mode.is_reactive(),
        !mode.reactivity.react_to_device_events,
        event is DeviceEvent,
    ensures
        !spec_can_react(mode, event),
{
}

/// Under a continuous mode every event category's gate is open: any window,
/// device or user event passes the built-in gate.
pub proof fn lemma_continuous_gates_open<T>(mode: UpdateMode, event: RunnerEvent<T>)
    requires
        !mode.is_reactive(),
        event.is_categorized(),
    ensures
        spec_can_react(mode, event),
{
}

} // verus!
