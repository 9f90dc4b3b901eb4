use vstd::prelude::*;

use crate::account::{is_authorized, AccountId};
use crate::decisions::{
    add_option_decision, extend_decision, poll_window_bounds, vote_decision, AddOptionAction,
};
use crate::error::PollError;
use crate::store::TallyStore;
use crate::window::{duration_millis, window_is_open, window_state};

verus! {

/// The stable reference under which the tally store is addressed: an opaque
/// handle obtained from the host when the store is created.
#[derive(Clone, Copy, Debug, PartialEq, Eq, Structural)]
pub struct SeedRef {
    /// The opaque handle value.
    pub handle: u64,
}

/// The mathematical reading of an initialized poll record.
#[verifier::ext_equal]
pub ghost struct PollView {
    /// The poll's question.
    pub question: Seq<char>,
    /// The identity that created the poll.
    pub owner: AccountId,
    /// When the voting window opened.
    pub window_start: u64,
    /// When the voting window closes; it only ever moves later.
    pub window_end: u64,
    /// The stable reference to the tally store.
    pub seed: SeedRef,
    /// The tallies: registered option name to vote count.
    pub tallies: Map<Seq<char>, u64>,
    /// The number of registered options.
    pub option_count: nat,
}

/// The tallies recorded at initialization: both initial options at zero.
pub open spec fn initial_tallies(option_one: Seq<char>, option_two: Seq<char>) -> Map<
    Seq<char>,
    u64,
> {
    Map::empty().insert(option_one, 0u64).insert(option_two, 0u64)
}

/// The poll record as initialization leaves it.
pub open spec fn initial_poll_view(
    caller: AccountId,
    now: u64,
    seed: SeedRef,
    question: Seq<char>,
    option_one: Seq<char>,
    option_two: Seq<char>,
    poll_length: u64,
) -> PollView
    recommends
        now + duration_millis(poll_length) <= u64::MAX,
{
    PollView {
        question: question,
        owner: caller,
        window_start: now,
        window_end: (now + duration_millis(poll_length)) as u64,
        seed: seed,
        tallies: initial_tallies(option_one, option_two),
        option_count: 2,
    }
}

/// What a vote returns: the window is checked first, then that the chosen
/// option is registered.
pub open spec fn vote_result(pre: PollView, name: Seq<char>, now: u64) -> Result<(), PollError> {
    if !window_is_open(now, pre.window_end) {
        Err(PollError::PollNoLongerOpen)
    } else if !pre.tallies.contains_key(name) {
        Err(PollError::InvalidVoteSubmission)
    } else {
        Ok(())
    }
}

/// The poll record after a vote: an accepted vote raises the chosen option's
/// tally by exactly one and changes nothing else; a rejected vote changes
/// nothing.
pub open spec fn vote_post(pre: PollView, name: Seq<char>, now: u64) -> PollView {
    if window_is_open(now, pre.window_end) && pre.tallies.contains_key(name) {
        PollView { tallies: pre.tallies.insert(name, (pre.tallies[name] + 1) as u64), ..pre }
    } else {
        pre
    }
}

/// What registering an option returns, with the checks in their fixed order:
/// the caller must be the owner, a closed window is a silent no-op, and the
/// new name must not be registered yet.
pub open spec fn add_option_result(
    pre: PollView,
    caller: AccountId,
    name: Seq<char>,
    now: u64,
) -> Result<(), PollError> {
    if !is_authorized(caller, pre.owner) {
        Err(PollError::UnauthorizedRequest)
    } else if !window_is_open(now, pre.window_end) {
        Ok(())
    } else if pre.tallies.contains_key(name) {
        Err(PollError::InvalidNewPollOption)
    } else {
        Ok(())
    }
}

/// The poll record after registering an option: an accepted registration adds
/// the new name at a zero tally and counts it; everything else changes
/// nothing.
pub open spec fn add_option_post(
    pre: PollView,
    caller: AccountId,
    name: Seq<char>,
    now: u64,
) -> PollView {
    if is_authorized(caller, pre.owner) && window_is_open(now, pre.window_end)
        && !pre.tallies.contains_key(name) {
        PollView {
            tallies: pre.tallies.insert(name, 0u64),
            option_count: (pre.option_count + 1) as nat,
            ..pre
        }
    } else {
        pre
    }
}

/// What extending the window returns: only an open poll can be extended.
pub open spec fn extend_result(pre: PollView, extension_minutes: u64, now: u64) -> Result<
    (),
    PollError,
> {
    if window_is_open(now, pre.window_end) {
        Ok(())
    } else {
        Err(PollError::PollNoLongerOpen)
    }
}

/// The poll record after extending the window: an accepted extension moves
/// the window end later by exactly the extension duration and changes nothing
/// else; a rejected one changes nothing.
pub open spec fn extend_post(pre: PollView, extension_minutes: u64, now: u64) -> PollView
    recommends
        pre.window_end + duration_millis(extension_minutes) <= u64::MAX,
{
    if window_is_open(now, pre.window_end) {
        PollView {
            window_end: (pre.window_end + duration_millis(extension_minutes)) as u64,
            ..pre
        }
    } else {
        pre
    }
}

/// A poll record together with its tally store: created exactly once; the
/// question and owner are immutable; the window end only ever moves later,
/// and only while the poll is open.
pub struct Poll {
    question: String,
    owner: AccountId,
    window_start: u64,
    window_end: u64,
    seed: SeedRef,
    options: TallyStore,
    option_count: usize,
}

impl View for Poll {
    type V = PollView;

    closed spec fn view(&self) -> PollView {
        PollView {
            question: self.question@,
            owner: self.owner,
            window_start: self.window_start,
            window_end: self.window_end,
            seed: self.seed,
            tallies: self.options@,
            option_count: self.option_count as nat,
        }
    }
}

impl Poll {
    /// A poll record is well formed when its question is non-empty, its
    /// window never ends before it starts, no option name is registered
    /// twice, and the option count matches the store.
    pub closed spec fn wf(&self) -> bool {
        &&& self.question@.len() > 0
        &&& self.window_start <= self.window_end
        &&& self.options.wf()
        &&& self.option_count == self.options.spec_num_options()
    }

    /// The record invariant, visible on the reading: the question is
    /// non-empty and the window never ends before it starts.
    pub proof fn lemma_wf_facts(&self)
        requires
            self.wf(),
        ensures
            self@.question.len() > 0,
            self@.window_start <= self@.window_end,
    {
    }

    /// Creates the poll record: records the question and the creating caller,
    /// computes the window from the current time and the poll length, and
    /// creates the tally store with both initial options at zero. A
    /// duplicated initial option name fails with `KeyAlreadyExists`.
    pub fn create(
        caller: AccountId,
        now: u64,
        seed: SeedRef,
        question: String,
        option_one: String,
        option_two: String,
        poll_length: u64,
    ) -> (r: Result<Poll, PollError>)
        requires
            question@.len() > 0,
            option_one@.len() > 0,
            option_two@.len() > 0,
            1 <= poll_length,
            now + duration_millis(poll_length) <= u64::MAX,
        ensures
            r is Ok <==> option_one@ != option_two@,
            r matches Ok(p) ==> p.wf() && p@ == initial_poll_view(
                caller,
                now,
                seed,
                question@,
                option_one@,
                option_two@,
                poll_length,
            ),
            r is Err ==> r == Err::<Poll, PollError>(PollError::KeyAlreadyExists),
    {
        let mut options = TallyStore::new();
        let first = options.register(option_one);
        let second = options.register(option_two);
        if !(first && second) {
            return Err(PollError::KeyAlreadyExists);
        }
        let (window_start, window_end) = poll_window_bounds(now, poll_length);
        let option_count = options.num_options();
        let poll = Poll { question, owner: caller, window_start, window_end, seed, options, option_count };
        proof {
            assert(poll@.tallies =~= initial_tallies(option_one@, option_two@));
            assert(poll@ =~= initial_poll_view(
                caller,
                now,
                seed,
                question@,
                option_one@,
                option_two@,
                poll_length,
            ));
        }
        Ok(poll)
    }

    /// The recorded question.
    pub fn question(&self) -> (q: &String)
        ensures
            q@ == self@.question,
    {
        &self.question
    }

    /// The identity that created the poll.
    pub fn owner(&self) -> (o: AccountId)
        ensures
            o == self@.owner,
    {
        self.owner
    }

    /// When the voting window opened.
    pub fn window_start(&self) -> (t: u64)
        ensures
            t == self@.window_start,
    {
        self.window_start
    }

    /// When the voting window closes.
    pub fn window_end(&self) -> (t: u64)
        ensures
            t == self@.window_end,
    {
        self.window_end
    }

    /// The stable seed reference under which the tally store is addressed.
    pub fn seed(&self) -> (s: SeedRef)
        ensures
            s == self@.seed,
    {
        self.seed
    }

    /// The number of registered options.
    pub fn option_count(&self) -> (n: usize)
        ensures
            n == self@.option_count,
    {
        self.option_count
    }

    /// The tally recorded for `name`, or `None` when `name` is not registered.
    pub fn count_of(&self, name: &String) -> (r: Option<u64>)
        requires
            self.wf(),
        ensures
            self@.tallies.contains_key(name@) ==> r == Some(self@.tallies[name@]),
            !self@.tallies.contains_key(name@) ==> r is None,
    {
        self.options.count_of(name)
    }

    /// Whether the voting window is open at the current time `now`.
    pub fn is_open(&self, now: u64) -> (b: bool)
        ensures
            b == window_is_open(now, self@.window_end),
    {
        now <= self.window_end
    }

    /// Casts one vote for `option_name`: the window gate first, then an
    /// atomic read-modify-write on the chosen option's tally.
    pub fn vote(&mut self, now: u64, option_name: &String) -> (r: Result<(), PollError>)
        requires
            old(self).wf(),
            old(self)@.tallies.contains_key(option_name@) ==> old(self)@.tallies[option_name@]
                < u64::MAX,
        ensures
            final(self).wf(),
            r == vote_result(old(self)@, option_name@, now),
            final(self)@ == vote_post(old(self)@, option_name@, now),
    {
        let window = window_state(now, self.window_end);
        let current = self.options.count_of(option_name);
        match vote_decision(window, current) {
            Ok(new_count) => {
                self.options.set_count(option_name, new_count);
                proof {
                    assert(self@ =~= vote_post(old(self)@, option_name@, now));
                }
                Ok(())
            },
            Err(e) => Err(e),
        }
    }

    /// Registers a new option: the caller must be the owner; a closed window
    /// is a silent no-op; an accepted registration inserts the name at a zero
    /// tally and counts it.
    pub fn add_option(&mut self, caller: AccountId, now: u64, new_option: String) -> (r: Result<
        (),
        PollError,
    >)
        requires
            old(self).wf(),
        ensures
            final(self).wf(),
            r == add_option_result(old(self)@, caller, new_option@, now),
            final(self)@ == add_option_post(old(self)@, caller, new_option@, now),
    {
        let window = window_state(now, self.window_end);
        let already_registered = self.options.contains(&new_option);
        match add_option_decision(caller, self.owner, window, already_registered) {
            Ok(AddOptionAction::Register) => {
                let registered = self.options.register(new_option);
                self.option_count = self.options.num_options();
                proof {
                    assert(registered);
                    assert(self@ =~= add_option_post(old(self)@, caller, new_option@, now));
                }
                Ok(())
            },
            Ok(AddOptionAction::LeaveUnchanged) => Ok(()),
            Err(e) => Err(e),
        }
    }

    /// Extends the voting window by the given duration: only while the poll
    /// is still open, so an extension can never revive a closed poll. No
    /// authorization is required: any caller may extend an open poll.
    pub fn extend_poll(&mut self, now: u64, extension_minutes: u64) -> (r: Result<(), PollError>)
        requires
            old(self).wf(),
            1 <= extension_minutes,
            old(self)@.window_end + duration_millis(extension_minutes) <= u64::MAX,
        ensures
            final(self).wf(),
            r == extend_result(old(self)@, extension_minutes, now),
            final(self)@ == extend_post(old(self)@, extension_minutes, now),
    {
        let window = window_state(now, self.window_end);
        match extend_decision(window, self.window_end, extension_minutes) {
            Ok(new_end) => {
                self.window_end = new_end;
                proof {
                    assert(self@ =~= extend_post(old(self)@, extension_minutes, now));
                }
                Ok(())
            },
            Err(e) => Err(e),
        }
    }
}

/// One poll instance: the storage context into which a poll record is
/// installed exactly once.
pub struct PollInstance {
    state: Option<Poll>,
}

impl PollInstance {
    /// Whether the poll record has been created.
    pub closed spec fn is_initialized(&self) -> bool {
        self.state is Some
    }

    /// The installed poll record; meaningful only once initialized.
    pub closed spec fn poll(&self) -> Poll
        recommends
            self.is_initialized(),
    {
        self.state->0
    }

    /// An instance is well formed when its record, if any, is.
    pub open spec fn wf(&self) -> bool {
        self.is_initialized() ==> self.poll().wf()
    }

    /// A fresh instance, with no poll record installed yet.
    pub fn new() -> (r: PollInstance)
        ensures
            !r.is_initialized(),
            r.wf(),
    {
        PollInstance { state: None }
    }

    /// Initializes the poll exactly once: a second call fails with
    /// `KeyAlreadyExists` and changes nothing, as does a duplicated initial
    /// option name. On success the record is installed and the tally store's
    /// stable seed reference is returned.
    pub fn init(
        &mut self,
        caller: AccountId,
        now: u64,
        seed: SeedRef,
        question: String,
        option_one: String,
        option_two: String,
        poll_length: u64,
    ) -> (r: Result<SeedRef, PollError>)
        requires
            old(self).wf(),
            question@.len() > 0,
            option_one@.len() > 0,
            option_two@.len() > 0,
            1 <= poll_length,
            now + duration_millis(poll_length) <= u64::MAX,
        ensures
            final(self).wf(),
            r is Ok <==> !old(self).is_initialized() && option_one@ != option_two@,
            r is Err ==> r == Err::<SeedRef, PollError>(PollError::KeyAlreadyExists) && *final(self)
                == *old(self),
            r is Ok ==> r == Ok::<SeedRef, PollError>(seed) && final(self).is_initialized()
                && final(self).poll()@ == initial_poll_view(
                caller,
                now,
                seed,
                question@,
                option_one@,
                option_two@,
                poll_length,
            ),
    {
        if self.state.is_some() {
            return Err(PollError::KeyAlreadyExists);
        }
        match Poll::create(caller, now, seed, question, option_one, option_two, poll_length) {
            Ok(poll) => {
                self.state = Some(poll);
                Ok(seed)
            },
            Err(e) => Err(e),
        }
    }

    /// Whether the poll record has been created.
    pub fn initialized(&self) -> (b: bool)
        ensures
            b == self.is_initialized(),
    {
        self.state.is_some()
    }

    /// Borrows the installed poll record.
    pub fn record(&self) -> (p: &Poll)
        requires
            self.is_initialized(),
        ensures
            *p == self.poll(),
    {
        self.state.as_ref().unwrap()
    }

    /// Casts one vote for `option_name` on the initialized poll.
    pub fn vote(&mut self, now: u64, option_name: &String) -> (r: Result<(), PollError>)
        requires
            old(self).wf(),
            old(self).is_initialized(),
            old(self).poll()@.tallies.contains_key(option_name@) ==> old(
                self,
            ).poll()@.tallies[option_name@] < u64::MAX,
        ensures
            final(self).wf(),
            final(self).is_initialized(),
            r == vote_result(old(self).poll()@, option_name@, now),
            final(self).poll()@ == vote_post(old(self).poll()@, option_name@, now),
    {
        match &mut self.state {
            Some(poll) => poll.vote(now, option_name),
            None => vstd::pervasive::unreached(),
        }
    }

    /// Registers a new option on the initialized poll.
    pub fn add_option(&mut self, caller: AccountId, now: u64, new_option: String) -> (r: Result<
        (),
        PollError,
    >)
        requires
            old(self).wf(),
            old(self).is_initialized(),
        ensures
            final(self).wf(),
            final(self).is_initialized(),
            r == add_option_result(old(self).poll()@, caller, new_option@, now),
            final(self).poll()@ == add_option_post(old(self).poll()@, caller, new_option@, now),
    {
        match &mut self.state {
            Some(poll) => poll.add_option(caller, now, new_option),
            None => vstd::pervasive::unreached(),
        }
    }

    /// Extends the voting window of the initialized poll.
    pub fn extend_poll(&mut self, now: u64, extension_minutes: u64) -> (r: Result<(), PollError>)
        requires
            old(self).wf(),
            old(self).is_initialized(),
            1 <= extension_minutes,
            old(self).poll()@.window_end + duration_millis(extension_minutes) <= u64::MAX,
        ensures
            final(self).wf(),
            final(self).is_initialized(),
            r == extend_result(old(self).poll()@, extension_minutes, now),
            final(self).poll()@ == extend_post(old(self).poll()@, extension_minutes, now),
    {
        match &mut self.state {
            Some(poll) => poll.extend_poll(now, extension_minutes),
            None => vstd::pervasive::unreached(),
        }
    }
}

} // verus!
