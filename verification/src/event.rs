//! The driver's view of one OS event.
//!
//! The shell around the library translates each raw windowing event into a
//! `RunnerEvent` before handing it to the driver.  The driver only reads an
//! event's category and the few payloads its decisions depend on; the
//! per-field translation of window and input events into engine events is
//! the shell's business.

use vstd::prelude::*;

verus! {

/// Why the event source woke up and started a new burst of events.
#[derive(Debug, Clone, Copy, PartialEq, Eq, Structural)]
pub enum StartCause {
    /// The very first wake-up of the loop.
    Init,
    /// The loop was polling and came around again.
    Poll,
    /// The armed wait deadline passed with no event arriving.
    ResumeTimeReached,
    /// An event arrived before the armed deadline.  `resume_requested` is
    /// true when a wait deadline was armed and is still in the future.
    WaitCancelled { resume_requested: bool },
}

/// One OS event, reduced to what the driver decides on.
pub enum RunnerEvent<T> {
    /// A new burst of events begins; carries why the source woke up.
    NewEvents(StartCause),
    /// An event concerning one window: input, resize, focus, redraw, ...
    WindowEvent,
    /// A raw device event, not tied to any window.
    DeviceEvent,
    /// An event injected by the embedding application through the loop's
    /// proxy handle, with its payload.
    UserEvent(T),
    /// The OS is about to suspend the application.
    Suspended,
    /// The OS resumed (or first started) the application.
    Resumed,
    /// The event source has drained all pending events and is about to
    /// block: the driver's main decision point.
    AboutToWait,
    /// The event loop is shutting down.
    LoopExiting,
    /// The OS warns that memory is low.
    MemoryWarning,
}

impl<T> RunnerEvent<T> {
    /// Whether the event belongs to one of the three wake categories.
    /// Lifecycle signals and timer ticks fall in none of them: they never
    /// wake the loop through the event filter.
    pub open spec fn is_categorized(self) -> bool {
        self is WindowEvent || self is DeviceEvent || self is UserEvent
    }
}

} // verus!
