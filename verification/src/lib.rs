//! Decision core of a `winit`-based event-loop driver for a game engine.
//!
//! The driver receives OS events one at a time, keeps a small session state,
//! and decides on every idle point whether to run one engine update, when to
//! wake up next, and when to ask the windows for a redraw.  Everything that
//! *decides* lives here and is verified; the surrounding shell (the real
//! event loop, window creation, event translation) performs the returned
//! actions and feeds the next event back in.

pub mod event;
pub mod state;
pub mod winit_config;
pub mod winit_event_filter;

pub use state::ControlFlowDecision;
pub use state::IdleActions;
pub use state::LifecycleNotice;
pub use state::PluginsState;
pub use state::RunnerView;
pub use state::StartupAction;
pub use state::UpdateState;
pub use state::WindowVisibility;
pub use state::WinitAppRunnerState;
pub use state::idle_decision;
pub use state::spec_control_flow;
pub use state::spec_idle_complete;
pub use state::spec_idle_decide;
pub use state::spec_on_resumed;
pub use state::spec_on_suspended;
pub use state::update_forced;
pub use state::wake_ready;

pub use event::RunnerEvent;
pub use event::StartCause;
pub use winit_event_filter::WinitEventFilter;
pub use winit_event_filter::spec_can_react;
pub use winit_config::Reactivity;
pub use winit_config::UpdateFrequency;
pub use winit_config::UpdateMode;
pub use winit_config::WaitDuration;
pub use winit_config::WinitSettings;

use vstd::prelude::*;

verus! {

/// The default payload for a user-injected wake event: it carries no data,
/// its arrival alone is the wake request.
#[derive(Debug, Default, Clone, Copy, PartialEq, Eq, Structural)]
pub struct WakeUp;

} // verus!
