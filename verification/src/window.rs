use vstd::prelude::*;

verus! {

/// Canonical time units: durations are given in minutes and the clock counts
/// milliseconds, so a duration is converted with both factors below.
pub const SECONDS_PER_MIN: u64 = 60;

/// Milliseconds per second, the clock's resolution.
pub const MILLI_PER_SEC: u64 = 1000;

/// The two derived states of the poll window. The state is never stored:
/// every gated call recomputes it from the clock and the recorded window end.
#[derive(Clone, Copy, Debug, PartialEq, Eq, Structural)]
pub enum PollWindow {
    /// The current time has not passed the window end: votes and
    /// registrations are accepted.
    Open,
    /// The current time has passed the window end: no mutation is accepted.
    Closed,
}

/// The window is open exactly while the current time has not passed its end.
pub open spec fn window_is_open(now: u64, window_end: u64) -> bool {
    now <= window_end
}

/// A duration in minutes, converted to milliseconds. The result is unbounded:
/// callers bound it before storing it in a clock value.
pub open spec fn duration_millis(minutes: u64) -> int {
    minutes * SECONDS_PER_MIN * MILLI_PER_SEC
}

/// Derives the window state from the current time and the recorded window end.
pub fn window_state(now: u64, window_end: u64) -> (w: PollWindow)
    ensures
        w == PollWindow::Open <==> window_is_open(now, window_end),
{
    if now <= window_end {
        PollWindow::Open
    } else {
        PollWindow::Closed
    }
}

/// Converts a duration in minutes to milliseconds.
pub fn duration_to_millis(minutes: u64) -> (ms: u64)
    requires
        duration_millis(minutes) <= u64::MAX,
    ensures
        ms == duration_millis(minutes),
{
    minutes * SECONDS_PER_MIN * MILLI_PER_SEC
}

} // verus!
