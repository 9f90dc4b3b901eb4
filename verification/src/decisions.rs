use vstd::prelude::*;

use crate::account::{authorize, is_authorized, AccountId};
use crate::error::PollError;
use crate::window::{duration_millis, duration_to_millis, PollWindow};

verus! {

/// What a vote comes to: a closed window rejects it, a missing current tally
/// means the option is not registered, and otherwise the tally becomes
/// exactly one more than it was.
pub open spec fn vote_outcome(window: PollWindow, current: Option<u64>) -> Result<
    u64,
    PollError,
> {
    match window {
        PollWindow::Closed => Err(PollError::PollNoLongerOpen),
        PollWindow::Open => match current {
            None => Err(PollError::InvalidVoteSubmission),
            Some(c) => Ok((c + 1) as u64),
        },
    }
}

/// Decides a vote from the window state and the current tally of the chosen
/// option: the compute step of the atomic read-modify-write.
pub fn vote_decision(window: PollWindow, current: Option<u64>) -> (r: Result<u64, PollError>)
    requires
        current matches Some(c) ==> c < u64::MAX,
    ensures
        r == vote_outcome(window, current),
{
    match window {
        PollWindow::Closed => Err(PollError::PollNoLongerOpen),
        PollWindow::Open => match current {
            None => Err(PollError::InvalidVoteSubmission),
            Some(c) => Ok(c + 1),
        },
    }
}

/// What an accepted option registration asks of the store.
#[derive(Clone, Copy, Debug, PartialEq, Eq, Structural)]
pub enum AddOptionAction {
    /// Insert the new name with a zero tally.
    Register,
    /// The window has closed: leave the store untouched and report success.
    LeaveUnchanged,
}

/// What registering an option comes to, with the checks in their fixed order:
/// authorization first, then the window, then uniqueness of the new name.
pub open spec fn add_option_outcome(
    caller: AccountId,
    owner: AccountId,
    window: PollWindow,
    already_registered: bool,
) -> Result<AddOptionAction, PollError> {
    if !is_authorized(caller, owner) {
        Err(PollError::UnauthorizedRequest)
    } else if window is Closed {
        Ok(AddOptionAction::LeaveUnchanged)
    } else if already_registered {
        Err(PollError::InvalidNewPollOption)
    } else {
        Ok(AddOptionAction::Register)
    }
}

/// Decides an option registration from the caller, the recorded owner, the
/// window state, and whether the new name is already registered.
pub fn add_option_decision(
    caller: AccountId,
    owner: AccountId,
    window: PollWindow,
    already_registered: bool,
) -> (r: Result<AddOptionAction, PollError>)
    ensures
        r == add_option_outcome(caller, owner, window, already_registered),
{
    if !authorize(caller, owner) {
        Err(PollError::UnauthorizedRequest)
    } else {
        match window {
            PollWindow::Closed => Ok(AddOptionAction::LeaveUnchanged),
            PollWindow::Open => {
                if already_registered {
                    Err(PollError::InvalidNewPollOption)
                } else {
                    Ok(AddOptionAction::Register)
                }
            },
        }
    }
}

/// What extending the window comes to: a closed window rejects it, and an
/// open one moves the window end later by exactly the given duration.
pub open spec fn extend_outcome(
    window: PollWindow,
    window_end: u64,
    extension_minutes: u64,
) -> Result<u64, PollError>
    recommends
        window_end + duration_millis(extension_minutes) <= u64::MAX,
{
    match window {
        PollWindow::Closed => Err(PollError::PollNoLongerOpen),
        PollWindow::Open => Ok((window_end + duration_millis(extension_minutes)) as u64),
    }
}

/// Decides a window extension from the window state, the recorded window end,
/// and the extension duration in minutes.
pub fn extend_decision(window: PollWindow, window_end: u64, extension_minutes: u64) -> (r: Result<
    u64,
    PollError,
>)
    requires
        window_end + duration_millis(extension_minutes) <= u64::MAX,
    ensures
        r == extend_outcome(window, window_end, extension_minutes),
{
    match window {
        PollWindow::Closed => Err(PollError::PollNoLongerOpen),
        PollWindow::Open => Ok(window_end + duration_to_millis(extension_minutes)),
    }
}

/// The voting window recorded at initialization: it starts at the current
/// time and ends after the given poll length.
pub fn poll_window_bounds(now: u64, poll_length: u64) -> (bounds: (u64, u64))
    requires
        now + duration_millis(poll_length) <= u64::MAX,
    ensures
        bounds.0 == now,
        bounds.1 == now + duration_millis(poll_length),
{
    (now, now + duration_to_millis(poll_length))
}

} // verus!
