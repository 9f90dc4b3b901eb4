use vstd::prelude::*;

verus! {

/// The kinds of failure a poll operation reports. Every error is fatal to the
/// call that raised it: the caller discards all effects of the call.
#[derive(Clone, Copy, Debug, PartialEq, Eq, Structural)]
pub enum PollError {
    /// The poll was already initialized, or an option name was registered twice.
    KeyAlreadyExists,
    /// A vote was cast for an option name that is not registered.
    InvalidVoteSubmission,
    /// The owner tried to register an option name that already exists.
    InvalidNewPollOption,
    /// A mutation was attempted after the voting window closed.
    PollNoLongerOpen,
    /// An owner-gated operation was attempted by a caller other than the owner.
    UnauthorizedRequest,
}

impl PollError {
    /// The numeric code under which this error kind is reported to callers.
    pub open spec fn spec_code(self) -> u16 {
        match self {
            PollError::KeyAlreadyExists => 0u16,
            PollError::InvalidVoteSubmission => 2u16,
            PollError::InvalidNewPollOption => 3u16,
            PollError::PollNoLongerOpen => 4u16,
            PollError::UnauthorizedRequest => 5u16,
        }
    }

    /// Returns the numeric code of this error kind.
    pub fn code(&self) -> (c: u16)
        ensures
            c == self.spec_code(),
    {
        match self {
            PollError::KeyAlreadyExists => 0,
            PollError::InvalidVoteSubmission => 2,
            PollError::InvalidNewPollOption => 3,
            PollError::PollNoLongerOpen => 4,
            PollError::UnauthorizedRequest => 5,
        }
    }
}

} // verus!
