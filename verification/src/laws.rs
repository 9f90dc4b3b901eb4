use vstd::prelude::*;

use crate::account::{is_authorized, AccountId};
use crate::error::PollError;
use crate::poll::{
    add_option_post, add_option_result, extend_post, extend_result, initial_tallies, vote_post,
    vote_result, PollView,
};
use crate::window::{duration_millis, window_is_open};

verus! {

/// For every option name registered at initialization, the tally starts at
/// zero; both initial options are registered.
pub proof fn lemma_initial_tallies_zero(option_one: Seq<char>, option_two: Seq<char>)
    ensures
        forall|name: Seq<char>|
            initial_tallies(option_one, option_two).contains_key(name) ==> initial_tallies(
                option_one,
                option_two,
            )[name] == 0,
        initial_tallies(option_one, option_two).contains_key(option_one),
        initial_tallies(option_one, option_two).contains_key(option_two),
{
}

/// An accepted vote on an open poll for a registered option raises that
/// option's tally by exactly one and leaves every other entry, and every
/// other field of the record, unchanged.
pub proof fn lemma_vote_increments_exactly_one(pre: PollView, name: Seq<char>, now: u64)
    requires
        window_is_open(now, pre.window_end),
        pre.tallies.contains_key(name),
        pre.tallies[name] < u64::MAX,
    ensures
        vote_result(pre, name, now) == Ok::<(), PollError>(()),
        vote_post(pre, name, now).tallies[name] == pre.tallies[name] + 1,
        vote_post(pre, name, now).tallies.dom() =~= pre.tallies.dom(),
        forall|other: Seq<char>|
            pre.tallies.contains_key(other) && other != name ==> vote_post(
                pre,
                name,
                now,
            ).tallies[other] == pre.tallies[other],
        vote_post(pre, name, now).question == pre.question,
        vote_post(pre, name, now).owner == pre.owner,
        vote_post(pre, name, now).window_start == pre.window_start,
        vote_post(pre, name, now).window_end == pre.window_end,
        vote_post(pre, name, now).seed == pre.seed,
        vote_post(pre, name, now).option_count == pre.option_count,
{
}

/// A vote for an unregistered name never changes the poll and never
/// succeeds: while the window is open it fails with `InvalidVoteSubmission`;
/// once the window has closed, the window gate reports `PollNoLongerOpen`
/// first.
pub proof fn lemma_vote_unregistered_fails(pre: PollView, name: Seq<char>, now: u64)
    requires
        !pre.tallies.contains_key(name),
    ensures
        vote_result(pre, name, now) is Err,
        window_is_open(now, pre.window_end) ==> vote_result(pre, name, now) == Err::<
            (),
            PollError,
        >(PollError::InvalidVoteSubmission),
        vote_post(pre, name, now) == pre,
{
}

/// Once the current time exceeds the window end, every vote fails with
/// `PollNoLongerOpen` and no tally changes.
pub proof fn lemma_vote_after_close_fails(pre: PollView, name: Seq<char>, now: u64)
    requires
        !window_is_open(now, pre.window_end),
    ensures
        vote_result(pre, name, now) == Err::<(), PollError>(PollError::PollNoLongerOpen),
        vote_post(pre, name, now) == pre,
{
}

/// Registration by a caller other than the owner always fails with
/// `UnauthorizedRequest`, whatever the window state: no tally changes and the
/// option count does not change.
pub proof fn lemma_add_option_unauthorized(
    pre: PollView,
    caller: AccountId,
    name: Seq<char>,
    now: u64,
)
    requires
        !is_authorized(caller, pre.owner),
    ensures
        add_option_result(pre, caller, name, now) == Err::<(), PollError>(
            PollError::UnauthorizedRequest,
        ),
        add_option_post(pre, caller, name, now) == pre,
{
}

/// Registering a name that already exists fails with `InvalidNewPollOption`
/// and changes nothing; the owner and window gates are checked first.
pub proof fn lemma_add_option_duplicate(
    pre: PollView,
    caller: AccountId,
    name: Seq<char>,
    now: u64,
)
    requires
        is_authorized(caller, pre.owner),
        window_is_open(now, pre.window_end),
        pre.tallies.contains_key(name),
    ensures
        add_option_result(pre, caller, name, now) == Err::<(), PollError>(
            PollError::InvalidNewPollOption,
        ),
        add_option_post(pre, caller, name, now) == pre,
{
}

/// While the poll is open, an extension succeeds and moves the window end
/// later by exactly the requested duration in canonical time units, changing
/// nothing else; once closed, it fails with `PollNoLongerOpen` and the window
/// end is unchanged.
pub proof fn lemma_extend_exact(pre: PollView, extension_minutes: u64, now: u64)
    requires
        pre.window_end + duration_millis(extension_minutes) <= u64::MAX,
    ensures
        window_is_open(now, pre.window_end) ==> extend_result(pre, extension_minutes, now)
            == Ok::<(), PollError>(()) && extend_post(pre, extension_minutes, now) == (PollView {
            window_end: (pre.window_end + duration_millis(extension_minutes)) as u64,
            ..pre
        }),
        !window_is_open(now, pre.window_end) ==> extend_result(pre, extension_minutes, now)
            == Err::<(), PollError>(PollError::PollNoLongerOpen) && extend_post(
            pre,
            extension_minutes,
            now,
        ) == pre,
{
}

/// The window end is monotone: an extension never moves it earlier, and a
/// positive extension of an open poll strictly extends it.
pub proof fn lemma_window_end_monotone(pre: PollView, extension_minutes: u64, now: u64)
    requires
        pre.window_end + duration_millis(extension_minutes) <= u64::MAX,
    ensures
        extend_post(pre, extension_minutes, now).window_end >= pre.window_end,
        window_is_open(now, pre.window_end) && 1 <= extension_minutes ==> extend_post(
            pre,
            extension_minutes,
            now,
        ).window_end > pre.window_end,
{
}

} // verus!
