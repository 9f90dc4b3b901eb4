use depoll::account::AccountId;
use depoll::error::PollError;
use depoll::poll::{PollInstance, SeedRef};

const QUESTION_VALUE: &str = "Favorite color?";
const RED: &str = "red";
const YELLOW: &str = "yellow";
const GREEN: &str = "green";
const INITIAL_VOTE_COUNT: u64 = 0;
const SECONDS_PER_MIN: u64 = 60;
const MILLI_PER_SEC: u64 = 1000;

const OWNER: AccountId = AccountId { id: 1 };
const STRANGER: AccountId = AccountId { id: 2 };
const SEED: SeedRef = SeedRef { handle: 42 };
const START: u64 = 1_000_000;
const POLL_LENGTH: u64 = 5;

/// Installs a poll the way the original deployment does: question
/// "Favorite color?" with initial options "red" and "yellow".
fn install_poll() -> PollInstance {
    let mut instance = PollInstance::new();
    let result = instance.init(
        OWNER,
        START,
        SEED,
        QUESTION_VALUE.to_string(),
        RED.to_string(),
        YELLOW.to_string(),
        POLL_LENGTH,
    );
    assert_eq!(result, Ok(SEED));
    instance
}

fn window_end_of(start: u64, minutes: u64) -> u64 {
    start + minutes * SECONDS_PER_MIN * MILLI_PER_SEC
}

#[test]
fn should_have_a_stored_question_in_contract_context() {
    let instance = install_poll();
    let question = instance.record().question().clone();
    assert_eq!(question, QUESTION_VALUE);
}

#[test]
fn should_have_a_dict_seed_uref_in_installer_context() {
    let mut instance = PollInstance::new();
    let dict_seed_uref = instance
        .init(
            OWNER,
            START,
            SEED,
            QUESTION_VALUE.to_string(),
            RED.to_string(),
            YELLOW.to_string(),
            POLL_LENGTH,
        )
        .expect("must have this entry in named keys");
    assert_eq!(dict_seed_uref, SEED);
    assert_eq!(instance.record().seed(), SEED);
}

#[test]
fn should_vote_for_red() {
    let mut instance = install_poll();

    let nb_or_red_votes = instance
        .record()
        .count_of(&RED.to_string())
        .expect("should be stored value.");
    assert_eq!(nb_or_red_votes, INITIAL_VOTE_COUNT);

    let outcome = instance.vote(START + 1, &RED.to_string());
    assert_eq!(outcome, Ok(()));

    let nb_or_red_votes = instance
        .record()
        .count_of(&RED.to_string())
        .expect("should be stored value.");
    assert_eq!(nb_or_red_votes, INITIAL_VOTE_COUNT + 1);
}

#[test]
fn should_add_option_green() {
    let mut instance = install_poll();

    let added = instance.add_option(OWNER, START + 1, GREEN.to_string());
    assert_eq!(added, Ok(()));

    let outcome = instance.vote(START + 2, &GREEN.to_string());
    assert_eq!(outcome, Ok(()));

    let nb_or_green_votes = instance
        .record()
        .count_of(&GREEN.to_string())
        .expect("should be stored value.");
    assert_eq!(nb_or_green_votes, INITIAL_VOTE_COUNT + 1);
}

#[test]
fn init_is_exactly_once() {
    let mut instance = install_poll();
    let second = instance.init(
        OWNER,
        START + 1,
        SeedRef { handle: 43 },
        "Another question?".to_string(),
        "a".to_string(),
        "b".to_string(),
        POLL_LENGTH,
    );
    assert_eq!(second, Err(PollError::KeyAlreadyExists));
    // The first record is untouched.
    let question = instance.record().question().clone();
    assert_eq!(question, QUESTION_VALUE);
    assert_eq!(instance.record().seed(), SEED);
}

#[test]
fn init_rejects_duplicate_initial_options() {
    let mut instance = PollInstance::new();
    let result = instance.init(
        OWNER,
        START,
        SEED,
        QUESTION_VALUE.to_string(),
        RED.to_string(),
        RED.to_string(),
        POLL_LENGTH,
    );
    assert_eq!(result, Err(PollError::KeyAlreadyExists));
    assert!(!instance.initialized());
}

#[test]
fn initial_tallies_are_zero() {
    let instance = install_poll();
    let record = instance.record();
    assert_eq!(record.count_of(&RED.to_string()), Some(0));
    assert_eq!(record.count_of(&YELLOW.to_string()), Some(0));
    assert_eq!(record.option_count(), 2);
}

#[test]
fn init_records_window_bounds() {
    let instance = install_poll();
    let record = instance.record();
    assert_eq!(record.window_start(), START);
    assert_eq!(record.window_end(), window_end_of(START, POLL_LENGTH));
    assert_eq!(record.window_end() - record.window_start(), 300_000);
    assert_eq!(record.owner(), OWNER);
}

#[test]
fn vote_leaves_other_tallies_unchanged() {
    let mut instance = install_poll();
    assert_eq!(instance.vote(START + 1, &RED.to_string()), Ok(()));
    let record = instance.record();
    assert_eq!(record.count_of(&RED.to_string()), Some(1));
    assert_eq!(record.count_of(&YELLOW.to_string()), Some(0));
    assert_eq!(record.option_count(), 2);
}

#[test]
fn vote_for_unregistered_name_fails_while_open() {
    let mut instance = install_poll();
    let outcome = instance.vote(START + 1, &"blue".to_string());
    assert_eq!(outcome, Err(PollError::InvalidVoteSubmission));
    let record = instance.record();
    assert_eq!(record.count_of(&"blue".to_string()), None);
    assert_eq!(record.count_of(&RED.to_string()), Some(0));
    assert_eq!(record.count_of(&YELLOW.to_string()), Some(0));
}

#[test]
fn vote_at_window_end_is_still_open() {
    let mut instance = install_poll();
    let end = instance.record().window_end();
    assert!(instance.record().is_open(end));
    assert_eq!(instance.vote(end, &RED.to_string()), Ok(()));
    assert_eq!(instance.record().count_of(&RED.to_string()), Some(1));
}

#[test]
fn vote_after_window_end_fails_and_changes_nothing() {
    let mut instance = install_poll();
    let end = instance.record().window_end();
    assert!(!instance.record().is_open(end + 1));
    let outcome = instance.vote(end + 1, &RED.to_string());
    assert_eq!(outcome, Err(PollError::PollNoLongerOpen));
    assert_eq!(instance.record().count_of(&RED.to_string()), Some(0));
}

#[test]
fn vote_after_close_reports_closed_window_even_for_unknown_name() {
    let mut instance = install_poll();
    let end = instance.record().window_end();
    let outcome = instance.vote(end + 1, &"blue".to_string());
    assert_eq!(outcome, Err(PollError::PollNoLongerOpen));
}

#[test]
fn add_option_by_non_owner_fails_and_changes_nothing() {
    let mut instance = install_poll();
    let outcome = instance.add_option(STRANGER, START + 1, GREEN.to_string());
    assert_eq!(outcome, Err(PollError::UnauthorizedRequest));
    let record = instance.record();
    assert_eq!(record.option_count(), 2);
    assert_eq!(record.count_of(&GREEN.to_string()), None);
    assert_eq!(record.count_of(&RED.to_string()), Some(0));
}

#[test]
fn add_option_for_existing_name_fails() {
    let mut instance = install_poll();
    let outcome = instance.add_option(OWNER, START + 1, RED.to_string());
    assert_eq!(outcome, Err(PollError::InvalidNewPollOption));
    let record = instance.record();
    assert_eq!(record.option_count(), 2);
    assert_eq!(record.count_of(&RED.to_string()), Some(0));
}

#[test]
fn add_option_after_close_is_a_silent_no_op() {
    let mut instance = install_poll();
    let end = instance.record().window_end();
    let outcome = instance.add_option(OWNER, end + 1, GREEN.to_string());
    assert_eq!(outcome, Ok(()));
    let record = instance.record();
    assert_eq!(record.option_count(), 2);
    assert_eq!(record.count_of(&GREEN.to_string()), None);
}

#[test]
fn add_option_increments_option_count() {
    let mut instance = install_poll();
    assert_eq!(instance.add_option(OWNER, START + 1, GREEN.to_string()), Ok(()));
    let record = instance.record();
    assert_eq!(record.option_count(), 3);
    assert_eq!(record.count_of(&GREEN.to_string()), Some(0));
}

#[test]
fn extend_poll_while_open_extends_by_exact_duration() {
    let mut instance = install_poll();
    let end = instance.record().window_end();
    let outcome = instance.extend_poll(START + 1, 2);
    assert_eq!(outcome, Ok(()));
    let record = instance.record();
    assert_eq!(record.window_end(), end + 2 * SECONDS_PER_MIN * MILLI_PER_SEC);
    assert_eq!(record.window_end(), end + 120_000);
    assert_eq!(record.window_start(), START);
}

#[test]
fn extend_poll_after_close_fails_and_leaves_window_end_unchanged() {
    let mut instance = install_poll();
    let end = instance.record().window_end();
    let outcome = instance.extend_poll(end + 1, 2);
    assert_eq!(outcome, Err(PollError::PollNoLongerOpen));
    assert_eq!(instance.record().window_end(), end);
}

#[test]
fn extension_cannot_revive_a_closed_poll() {
    let mut instance = install_poll();
    let end = instance.record().window_end();
    assert_eq!(instance.extend_poll(end + 1, 1000), Err(PollError::PollNoLongerOpen));
    assert_eq!(
        instance.vote(end + 1, &RED.to_string()),
        Err(PollError::PollNoLongerOpen)
    );
}

#[test]
fn round_trip_of_a_whole_poll() {
    let mut instance = PollInstance::new();
    let seed = instance
        .init(
            OWNER,
            START,
            SEED,
            QUESTION_VALUE.to_string(),
            RED.to_string(),
            YELLOW.to_string(),
            5,
        )
        .expect("initialization succeeds");
    assert_eq!(seed, SEED);
    assert_eq!(instance.record().count_of(&RED.to_string()), Some(0));
    assert_eq!(instance.record().count_of(&YELLOW.to_string()), Some(0));

    assert_eq!(instance.vote(START + 1, &RED.to_string()), Ok(()));
    assert_eq!(instance.record().count_of(&RED.to_string()), Some(1));
    assert_eq!(instance.record().count_of(&YELLOW.to_string()), Some(0));

    assert_eq!(
        instance.vote(START + 2, &"blue".to_string()),
        Err(PollError::InvalidVoteSubmission)
    );
    assert_eq!(instance.record().count_of(&RED.to_string()), Some(1));
    assert_eq!(instance.record().count_of(&YELLOW.to_string()), Some(0));

    assert_eq!(instance.add_option(OWNER, START + 3, GREEN.to_string()), Ok(()));
    assert_eq!(instance.record().count_of(&RED.to_string()), Some(1));
    assert_eq!(instance.record().count_of(&YELLOW.to_string()), Some(0));
    assert_eq!(instance.record().count_of(&GREEN.to_string()), Some(0));

    let end = instance.record().window_end();
    assert_eq!(
        instance.vote(end + 1, &RED.to_string()),
        Err(PollError::PollNoLongerOpen)
    );
    assert_eq!(instance.record().count_of(&RED.to_string()), Some(1));
}
