//! The driver's session state and its per-event decisions.
//!
//! The event-loop shell owns one [`WinitAppRunnerState`] for the lifetime of
//! the loop and calls into it once per OS event, in a fixed order: first
//! [`begin_event_cycle`](WinitAppRunnerState::begin_event_cycle) and
//! [`handle_event`](WinitAppRunnerState::handle_event) for every event, then
//! the handler matching the event's category.  At the idle point the shell
//! calls [`idle_decide`](WinitAppRunnerState::idle_decide), runs one engine
//! update if that says so (after
//! [`prepare_update`](WinitAppRunnerState::prepare_update)), re-reads the
//! update mode — the update may have changed the settings — and hands it to
//! [`idle_complete`](WinitAppRunnerState::idle_complete), which returns the
//! actions to perform: how to wait for the next event, and whether to ask
//! the windows for a redraw.
//!
//! Every decision is a pure function of the state and the inputs, and each
//! function's contract pins the new state and the result exactly, over the
//! state's view [`RunnerView`].

use vstd::prelude::*;

use crate::event::RunnerEvent;
use crate::event::StartCause;
use crate::winit_config::Reactivity;
use crate::winit_config::UpdateFrequency;
use crate::winit_config::UpdateMode;
use crate::winit_config::WaitDuration;
use crate::winit_event_filter::WinitEventFilter;
use crate::winit_event_filter::spec_can_react;

verus! {

/// How far the engine's startup has come.  The driver keeps forcing redraws
/// until startup has been cleaned up, and only runs updates after that.
#[derive(Debug, Clone, Copy, PartialEq, Eq, Structural)]
pub enum PluginsState {
    /// Initialization is still running.
    NotReady,
    /// Initialization is done and waits to be finished and cleaned up.
    Ready,
    /// Startup is complete: the engine may update.
    Cleaned,
}

/// What the shell must do for the engine's startup this cycle.
#[derive(Debug, Clone, Copy, PartialEq, Eq, Structural)]
pub enum StartupAction {
    /// Keep driving the engine's initialization forward.
    AdvanceInit,
    /// Initialization is ready: finish it and clean up.
    FinishAndCleanup,
}

/// The lifecycle phase of the driver's session.
#[derive(Debug, Clone, Copy, PartialEq, Eq, Structural)]
pub enum UpdateState {
    /// No resume signal has arrived yet.
    NotYetStarted,
    /// The application runs in the foreground.
    Active,
    /// The application is suspended; no updates run.
    Suspended,
    /// A suspend signal arrived: one last update runs at the next idle
    /// point, then the session is suspended.
    WillSuspend,
    /// A resume signal arrived: an update and a redraw are forced at the
    /// next idle point, then the session is active.
    WillResume,
}

impl UpdateState {
    /// Updates may only run in an active phase: while the session runs in
    /// the foreground, or on the one-update edge into or out of suspension.
    pub open spec fn spec_is_active(self) -> bool {
        match self {
            UpdateState::NotYetStarted | UpdateState::Suspended => false,
            UpdateState::Active | UpdateState::WillSuspend | UpdateState::WillResume => true,
        }
    }

    /// Whether updates may run in this phase.
    pub fn is_active(&self) -> (r: bool)
        ensures
            r == self.spec_is_active(),
    {
        match self {
            UpdateState::NotYetStarted | UpdateState::Suspended => false,
            UpdateState::Active | UpdateState::WillSuspend | UpdateState::WillResume => true,
        }
    }
}

/// The lifecycle notification the shell emits to the engine when a suspend
/// or resume signal arrives.
#[derive(Debug, Clone, Copy, PartialEq, Eq, Structural)]
pub enum LifecycleNotice {
    /// The first resume signal: the application has started.
    Started,
    /// A later resume signal: the application came back from suspension.
    Resumed,
    /// A suspend signal arrived.
    Suspended,
}

/// What the shell can see of the windows when choosing the control flow.
#[derive(Debug, Clone, Copy, PartialEq, Eq, Structural)]
pub enum WindowVisibility {
    /// The platform gives no reliable visibility signal.
    Unknown,
    /// At least one window is visible.
    Visible,
    /// No window is visible.
    Hidden,
}

/// How the shell should wait for the next event.
#[derive(Debug, Clone, Copy, PartialEq, Eq, Structural)]
pub enum ControlFlowDecision {
    /// Block until the next event.
    Wait,
    /// Do not block: come straight back with a new burst of events.
    Poll,
    /// Arm a wake deadline this far after the start of this idle pass, and
    /// block until then or until an event arrives.
    ArmDeadline(WaitDuration),
    /// Leave the event source's control flow as it is.
    Unchanged,
}

/// The actions the shell performs at the end of one idle pass.
#[derive(Debug, Clone, Copy, PartialEq, Eq, Structural)]
pub struct IdleActions {
    /// How to wait for the next event.
    pub control_flow: ControlFlowDecision,
    /// Whether to issue one redraw request to every live window now.
    pub flush_redraws: bool,
}

/// The driver's session state, as the contracts see it: every field of
/// [`WinitAppRunnerState`] except the installed event filter.
pub ghost struct RunnerView {
    /// The lifecycle phase.
    pub activity_state: UpdateState,
    /// The last update mode the idle pass applied.
    pub update_mode: UpdateMode,
    /// How many more idle decisions must force an update regardless of
    /// policy.
    pub startup_forced_updates: u32,
    /// Whether a redraw request is latched for the next idle pass.
    pub redraw_requested: bool,
    /// Whether the armed wait deadline has passed.
    pub wait_elapsed: bool,
    /// Whether a filtered event arrived since the last update.
    pub event_received: bool,
}

/// The driver's session state: lifecycle phase, accumulated wake flags, the
/// forced-startup-update counter, and the last applied update mode.
pub struct WinitAppRunnerState<T, F> {
    /// The lifecycle phase.
    pub activity_state: UpdateState,
    /// The last update mode the idle pass applied; a difference from the
    /// freshly selected mode means the policy changed.
    pub update_mode: UpdateMode,
    /// The installed event filter.
    pub event_filter: WinitEventFilter<T, F>,
    /// How many more idle decisions must force an update regardless of
    /// policy.  Engine initialization — window backends, GPU surfaces —
    /// needs a few warm-up updates before the power-saving policy can be
    /// respected.
    pub startup_forced_updates: u32,
    /// Whether a redraw request is latched for the next idle pass.
    pub redraw_requested: bool,
    /// Whether the armed wait deadline has passed.
    pub wait_elapsed: bool,
    /// Whether a filtered event arrived since the last update.
    pub event_received: bool,
}

impl<T, F> View for WinitAppRunnerState<T, F> {
    type V = RunnerView;

    open spec fn view(&self) -> RunnerView {
        RunnerView {
            activity_state: self.activity_state,
            update_mode: self.update_mode,
            startup_forced_updates: self.startup_forced_updates,
            redraw_requested: self.redraw_requested,
            wait_elapsed: self.wait_elapsed,
            event_received: self.event_received,
        }
    }
}

/// Whether a wake condition holds: the wait deadline has passed, or a
/// filtered event arrived since the last update.
pub open spec fn wake_ready(v: RunnerView) -> bool {
    v.wait_elapsed || v.event_received
}

/// Whether this idle decision is forced regardless of wake conditions:
/// during the forced startup updates, and once on each edge into or out of
/// suspension.
pub open spec fn update_forced(v: RunnerView) -> bool {
    v.startup_forced_updates > 0 || v.activity_state is WillSuspend || v.activity_state
        is WillResume
}

/// Whether the idle pass runs an update: a wake condition in an active
/// phase, or a forced update.
pub open spec fn idle_decision(v: RunnerView) -> bool {
    (wake_ready(v) && v.activity_state.spec_is_active()) || update_forced(v)
}

/// The state after one idle decision: the suspend and resume edges are
/// taken, the forced-startup counter counts down, and a pending redraw
/// event or a taken resume edge latches the redraw flag.
pub open spec fn spec_idle_decide(v: RunnerView, redraw_event_pending: bool) -> RunnerView {
    RunnerView {
        activity_state: match v.activity_state {
            UpdateState::WillSuspend => UpdateState::Suspended,
            UpdateState::WillResume => UpdateState::Active,
            other => other,
        },
        startup_forced_updates: if v.startup_forced_updates > 0 {
            (v.startup_forced_updates - 1) as u32
        } else {
            0
        },
        redraw_requested: v.redraw_requested || redraw_event_pending || v.activity_state
            is WillResume,
        ..v
    }
}

/// The state after a suspend signal: the next idle pass will run one last
/// update and then suspend.
pub open spec fn spec_on_suspended(v: RunnerView) -> RunnerView {
    RunnerView { activity_state: UpdateState::WillSuspend, ..v }
}

/// The state after a resume signal: the next idle pass will force an update
/// and a redraw and then be active.
pub open spec fn spec_on_resumed(v: RunnerView) -> RunnerView {
    RunnerView { activity_state: UpdateState::WillResume, ..v }
}

/// The control flow chosen at the end of an idle pass.  A continuous mode
/// never sleeps for long: it waits for the next event where a visible
/// window (or a platform without a reliable visibility signal) guarantees
/// wake-ups, and polls otherwise.  A reactive mode arms a fresh deadline
/// one wait interval after the start of the idle pass, but only if the
/// previous deadline has fired — re-arming an unfired deadline on every
/// pass would let it drift and never fire.
pub open spec fn spec_control_flow(
    mode: UpdateMode,
    wait_elapsed: bool,
    visibility: WindowVisibility,
) -> ControlFlowDecision {
    match mode.update_frequency {
        UpdateFrequency::Continuous => if visibility is Hidden {
            ControlFlowDecision::Poll
        } else {
            ControlFlowDecision::Wait
        },
        UpdateFrequency::TargetInterval(wait) => if wait_elapsed {
            ControlFlowDecision::ArmDeadline(wait)
        } else {
            ControlFlowDecision::Unchanged
        },
    }
}

/// The state and actions at the end of one idle pass under the freshly
/// selected `mode`.  A mode different from the last applied one latches a
/// redraw and treats the wait as elapsed, so the switch is observed at once
/// rather than after a stale deadline; waiting continuously latches a
/// redraw too, since the next wake-up is the redraw's delivery; and a
/// latched redraw is flushed to the windows — exactly once — unless the
/// session is suspended.
pub open spec fn spec_idle_complete(v: RunnerView, mode: UpdateMode, visibility: WindowVisibility) -> (
    RunnerView,
    IdleActions,
) {
    let changed = mode != v.update_mode;
    let applied = RunnerView {
        update_mode: mode,
        redraw_requested: v.redraw_requested || changed,
        wait_elapsed: v.wait_elapsed || changed,
        ..v
    };
    let flow = spec_control_flow(mode, applied.wait_elapsed, visibility);
    let redraw = applied.redraw_requested || flow is Wait;
    let flush = redraw && !(applied.activity_state is Suspended);
    (
        RunnerView { redraw_requested: redraw && !flush, ..applied },
        IdleActions { control_flow: flow, flush_redraws: flush },
    )
}

impl<T, F> WinitAppRunnerState<T, F> where F: Fn(&RunnerEvent<T>, UpdateMode) -> bool {
    /// Whether a wake condition holds in an active phase.  The forced
    /// updates and the suspend/resume edges are the idle decision's
    /// business, not this function's.
    pub fn should_update(&self) -> (r: bool)
        ensures
            r == (wake_ready(self@) && self@.activity_state.spec_is_active()),
    {
        (self.wait_elapsed || self.event_received) && self.activity_state.is_active()
    }

    /// Clears the accumulated wake flag: an update consumes the events
    /// that woke the driver.
    pub fn reset_on_update(&mut self)
        ensures
            final(self)@ == (RunnerView { event_received: false, ..old(self)@ }),
            final(self).event_filter == old(self).event_filter,
    {
        self.event_received = false;
    }

    /// Runs the event through the installed filter and accumulates the
    /// result into the wake flag.  An event the filter absorbs leaves the
    /// flag as it was; with no predicate installed, any event that passes
    /// the built-in category gate sets it.
    pub fn handle_event(&mut self, event: &RunnerEvent<T>, update_mode: UpdateMode)
        requires
            old(self).event_filter.filter matches Some(f) ==> call_requires(
                f,
                (event, update_mode),
            ),
        ensures
            final(self)@ == (RunnerView { event_received: final(self)@.event_received, ..old(
                self,
            )@ }),
            final(self).event_filter == old(self).event_filter,
            old(self)@.event_received ==> final(self)@.event_received,
            !spec_can_react(update_mode, *event) ==> final(self)@.event_received == old(
                self,
            )@.event_received,
            (spec_can_react(update_mode, *event) && old(self).event_filter.filter is None)
                ==> final(self)@.event_received,
            old(self).event_filter.filter matches Some(f) ==> (spec_can_react(update_mode, *event)
                ==> exists|woke: bool|
                call_ensures(f, (event, update_mode), woke) && final(self)@.event_received == (old(
                    self,
                )@.event_received || woke)),
    {
        let woke = self.event_filter.handle(event, update_mode);
        self.event_received = self.event_received || woke;
    }

    /// The start of every event cycle: while the engine's startup is not
    /// complete the shell must keep advancing it — before any window is
    /// created, so that the resources window creation needs exist — and a
    /// redraw stays latched.
    pub fn begin_event_cycle(&mut self, plugins: PluginsState) -> (action: Option<StartupAction>)
        ensures
            final(self)@ == (RunnerView {
                redraw_requested: old(self)@.redraw_requested || !(plugins is Cleaned),
                ..old(self)@
            }),
            final(self).event_filter == old(self).event_filter,
            action == (match plugins {
                PluginsState::NotReady => Some(StartupAction::AdvanceInit),
                PluginsState::Ready => Some(StartupAction::FinishAndCleanup),
                PluginsState::Cleaned => None::<StartupAction>,
            }),
    {
        match plugins {
            PluginsState::NotReady => {
                self.redraw_requested = true;
                Some(StartupAction::AdvanceInit)
            },
            PluginsState::Ready => {
                self.redraw_requested = true;
                Some(StartupAction::FinishAndCleanup)
            },
            PluginsState::Cleaned => None,
        }
    }

    /// A new burst of events begins: the wait counts as elapsed unless the
    /// wait was cancelled by an event that arrived while a resume deadline
    /// was still pending.  A cancelled wait with no pending deadline counts
    /// as elapsed: this library's documented reading of that edge.
    pub fn on_new_events(&mut self, cause: StartCause)
        ensures
            final(self)@ == (RunnerView {
                wait_elapsed: !(cause matches StartCause::WaitCancelled { resume_requested: true }),
                ..old(self)@
            }),
            final(self).event_filter == old(self).event_filter,
    {
        self.wait_elapsed = match cause {
            StartCause::WaitCancelled { resume_requested } => !resume_requested,
            _ => true,
        };
    }

    /// A suspend signal arrived: the session will suspend at the next idle
    /// point, after one last update lets the application react.  Returns
    /// the notification the shell emits to the engine.
    pub fn on_suspended(&mut self) -> (notice: LifecycleNotice)
        ensures
            final(self)@ == spec_on_suspended(old(self)@),
            final(self).event_filter == old(self).event_filter,
            notice == LifecycleNotice::Suspended,
    {
        self.activity_state = UpdateState::WillSuspend;
        LifecycleNotice::Suspended
    }

    /// A resume signal arrived: the session will be active at the next
    /// idle point.  Returns the notification the shell emits: `Started`
    /// for the very first resume signal, `Resumed` for every later one.
    pub fn on_resumed(&mut self) -> (notice: LifecycleNotice)
        ensures
            final(self)@ == spec_on_resumed(old(self)@),
            final(self).event_filter == old(self).event_filter,
            notice == (if old(self)@.activity_state is NotYetStarted {
                LifecycleNotice::Started
            } else {
                LifecycleNotice::Resumed
            }),
    {
        let notice = match self.activity_state {
            UpdateState::NotYetStarted => LifecycleNotice::Started,
            _ => LifecycleNotice::Resumed,
        };
        self.activity_state = UpdateState::WillResume;
        notice
    }

    /// The idle point's decision: whether to run one engine update now.
    /// Takes the suspend and resume edges, counts one forced startup
    /// update down, and latches the redraw flag for a pending redraw
    /// request or a taken resume edge.
    pub fn idle_decide(&mut self, redraw_event_pending: bool) -> (run_update: bool)
        ensures
            final(self)@ == spec_idle_decide(old(self)@, redraw_event_pending),
            final(self).event_filter == old(self).event_filter,
            run_update == idle_decision(old(self)@),
    {
        if redraw_event_pending {
            self.redraw_requested = true;
        }
        let mut run_update = self.should_update();
        if self.startup_forced_updates > 0 {
            self.startup_forced_updates -= 1;
            // Updates are forced on the first iterations for engine
            // initialization to settle.
            run_update = true;
        }
        if self.activity_state == UpdateState::WillSuspend {
            self.activity_state = UpdateState::Suspended;
            // One last update runs so the application can react before
            // suspending.
            run_update = true;
        }
        if self.activity_state == UpdateState::WillResume {
            self.activity_state = UpdateState::Active;
            run_update = true;
            self.redraw_requested = true;
        }
        run_update
    }

    /// Right before an update runs: the wake flag is consumed, and the
    /// engine actually updates only once its startup is complete.
    pub fn prepare_update(&mut self, plugins: PluginsState) -> (run_engine: bool)
        ensures
            final(self)@ == (RunnerView { event_received: false, ..old(self)@ }),
            final(self).event_filter == old(self).event_filter,
            run_engine == (plugins is Cleaned),
    {
        self.reset_on_update();
        match plugins {
            PluginsState::Cleaned => true,
            _ => false,
        }
    }

    /// The end of the idle pass, under the freshly selected mode — the
    /// update that just ran may have changed the settings, so the shell
    /// re-reads the mode before this call.  Applies the mode, chooses the
    /// control flow, and says whether to flush the latched redraw to the
    /// windows now.
    pub fn idle_complete(&mut self, update_mode: UpdateMode, visibility: WindowVisibility) -> (r:
        IdleActions)
        ensures
            final(self)@ == spec_idle_complete(old(self)@, update_mode, visibility).0,
            final(self).event_filter == old(self).event_filter,
            r == spec_idle_complete(old(self)@, update_mode, visibility).1,
    {
        if update_mode != self.update_mode {
            // The policy changed: observe it this iteration rather than
            // after a stale deadline.
            self.redraw_requested = true;
            self.wait_elapsed = true;
            self.update_mode = update_mode;
        }
        let control_flow = match self.update_mode.update_frequency {
            UpdateFrequency::Continuous => match visibility {
                WindowVisibility::Hidden => ControlFlowDecision::Poll,
                _ => ControlFlowDecision::Wait,
            },
            UpdateFrequency::TargetInterval(wait) => if self.wait_elapsed {
                ControlFlowDecision::ArmDeadline(wait)
            } else {
                ControlFlowDecision::Unchanged
            },
        };
        if control_flow == ControlFlowDecision::Wait {
            // Waiting without a deadline: the redraw's delivery is the
            // next wake-up.
            self.redraw_requested = true;
        }
        let flush_redraws = self.redraw_requested && self.activity_state != UpdateState::Suspended;
        if flush_redraws {
            self.redraw_requested = false;
        }
        IdleActions { control_flow, flush_redraws }
    }
}

/// The state after `steps` idle decisions in a row with no redraw request
/// pending at any of them.
pub open spec fn spec_idle_iterate(v: RunnerView, steps: nat) -> RunnerView
    decreases steps,
{
    if steps == 0 {
        v
    } else {
        spec_idle_decide(spec_idle_iterate(v, (steps - 1) as nat), false)
    }
}

/// In a reactive mode, an idle pass with no wake condition runs no update:
/// the wait has not elapsed, no enabled event arrived, no forced startup
/// update is outstanding, and the session is not on a suspend or resume
/// edge.
pub proof fn lemma_reactive_needs_wake(v: RunnerView)
    requires
        v.update_mode.is_reactive(),
        !v.wait_elapsed,
        !v.event_received,
        v.startup_forced_updates == 0,
        !(v.activity_state is WillSuspend),
        !(v.activity_state is WillResume),
    ensures
        !idle_decision(v),
{
}

/// Repeated idle decisions from a steadily active session leave the phase,
/// the wake flags and the mode alone and only count the forced-startup
/// counter down, one per decision, stopping at zero.
pub proof fn lemma_idle_iterate_steady(v: RunnerView, steps: nat)
    requires
        v.activity_state is Active,
    ensures
        spec_idle_iterate(v, steps).activity_state is Active,
        spec_idle_iterate(v, steps).wait_elapsed == v.wait_elapsed,
        spec_idle_iterate(v, steps).event_received == v.event_received,
        spec_idle_iterate(v, steps).update_mode == v.update_mode,
        spec_idle_iterate(v, steps).startup_forced_updates == (if steps
            <= v.startup_forced_updates {
            v.startup_forced_updates - steps
        } else {
            0
        }),
    decreases steps,
{
    if steps > 0 {
        lemma_idle_iterate_steady(v, (steps - 1) as nat);
    }
}

/// The forced-startup counter forces exactly its initial count of updates:
/// from a steadily active session with `n` forced updates outstanding,
/// each of the first `n` idle decisions runs an update whatever the wake
/// flags say, and the decision right after them is policy-driven again —
/// it runs an update exactly when a wake condition held all along.
pub proof fn lemma_startup_forces_exactly_n(v: RunnerView, step: nat)
    requires
        v.activity_state is Active,
    ensures
        step < v.startup_forced_updates ==> idle_decision(spec_idle_iterate(v, step)),
        idle_decision(spec_idle_iterate(v, v.startup_forced_updates as nat)) == wake_ready(v),
{
    lemma_idle_iterate_steady(v, step);
    lemma_idle_iterate_steady(v, v.startup_forced_updates as nat);
}

/// A suspended session with no forced startup update outstanding is
/// quiescent: every further idle decision runs no update and leaves the
/// session suspended, whatever the wake flags say, until a resume signal.
pub proof fn lemma_suspended_quiescent(v: RunnerView, steps: nat)
    requires
        v.activity_state is Suspended,
        v.startup_forced_updates == 0,
    ensures
        spec_idle_iterate(v, steps).activity_state is Suspended,
        spec_idle_iterate(v, steps).startup_forced_updates == 0,
        !idle_decision(spec_idle_iterate(v, steps)),
    decreases steps,
{
    if steps > 0 {
        lemma_suspended_quiescent(v, (steps - 1) as nat);
    }
}

/// The suspend edge: a suspend signal in an active session moves it to
/// `WillSuspend`; the next idle decision forces one last update and lands
/// in `Suspended`, which is not active; and from there no further update
/// runs until a resume signal.  With two or more forced startup updates
/// still outstanding the tail would not hold — forced updates ignore the
/// phase — so at most one may remain.
pub proof fn lemma_suspend_edge(v: RunnerView, redraw_event_pending: bool, steps: nat)
    requires
        v.activity_state is Active,
        v.startup_forced_updates <= 1,
    ensures
        idle_decision(spec_on_suspended(v)),
        spec_idle_decide(spec_on_suspended(v), redraw_event_pending).activity_state is Suspended,
        !spec_idle_decide(
            spec_on_suspended(v),
            redraw_event_pending,
        ).activity_state.spec_is_active(),
        !idle_decision(
            spec_idle_iterate(spec_idle_decide(spec_on_suspended(v), redraw_event_pending), steps),
        ),
        spec_idle_iterate(
            spec_idle_decide(spec_on_suspended(v), redraw_event_pending),
            steps,
        ).activity_state is Suspended,
{
    lemma_suspended_quiescent(spec_idle_decide(spec_on_suspended(v), redraw_event_pending), steps);
}

/// The resume edge: a resume signal in a suspended session moves it to
/// `WillResume`; the next idle decision forces an update, latches the
/// redraw flag, and lands in `Active`.
pub proof fn lemma_resume_edge(v: RunnerView, redraw_event_pending: bool)
    requires
        v.activity_state is Suspended,
    ensures
        idle_decision(spec_on_resumed(v)),
        spec_idle_decide(spec_on_resumed(v), redraw_event_pending).activity_state is Active,
        spec_idle_decide(spec_on_resumed(v), redraw_event_pending).redraw_requested,
{
}

/// A policy switch is observed within the idle pass that sees it: the new
/// mode is applied at once, the wait counts as elapsed so no stale
/// deadline is waited out, and — unless the session is suspended — a
/// redraw is flushed to the windows in the same pass.
pub proof fn lemma_mode_change_observed(v: RunnerView, mode: UpdateMode, visibility: WindowVisibility)
    requires
        mode != v.update_mode,
    ensures
        spec_idle_complete(v, mode, visibility).0.update_mode == mode,
        spec_idle_complete(v, mode, visibility).0.wait_elapsed,
        !(v.activity_state is Suspended) ==> spec_idle_complete(v, mode, visibility).1.flush_redraws,
{
}

/// A deadline that has not fired is never re-armed: an idle pass under an
/// unchanged reactive mode whose wait has not elapsed leaves the event
/// source's control flow alone, so repeated premature passes cannot make
/// the deadline drift.
pub proof fn lemma_unfired_deadline_not_rearmed(v: RunnerView, visibility: WindowVisibility)
    requires
        v.update_mode.is_reactive(),
        !v.wait_elapsed,
    ensures
        spec_idle_complete(v, v.update_mode, visibility).1.control_flow is Unchanged,
{
}

impl<T, F> Default for WinitAppRunnerState<T, F> where F: Fn(&RunnerEvent<T>, UpdateMode) -> bool {
    /// A fresh session: not yet started, continuous mode applied, no wake
    /// flags, and five forced startup updates outstanding — enough warm-up
    /// for window backends and GPU surfaces, with a margin.
    fn default() -> (r: Self)
        ensures
            r@ == (RunnerView {
                activity_state: UpdateState::NotYetStarted,
                update_mode: UpdateMode {
                    reactivity: Reactivity {
                        react_to_window_events: true,
                        react_to_device_events: true,
                        react_to_user_events: true,
                    },
                    update_frequency: UpdateFrequency::Continuous,
                },
                startup_forced_updates: 5,
                redraw_requested: false,
                wait_elapsed: false,
                event_received: false,
            }),
            r.event_filter.filter is None,
    {
        WinitAppRunnerState {
            activity_state: UpdateState::NotYetStarted,
            update_mode: UpdateMode::continuous(),
            event_filter: WinitEventFilter::default(),
            startup_forced_updates: 5,
            redraw_requested: false,
            wait_elapsed: false,
            event_received: false,
        }
    }
}

} // verus!
