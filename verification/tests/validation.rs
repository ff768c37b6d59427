use std::cell::Cell;

use soroban_sdk::testutils::Address as _;
use soroban_sdk::{Address, Env};
use tricklepay_stream::contract::validate_stream_creation;
use tricklepay_stream::{StreamError, MAX_AMOUNT};

/// The ledger clock every case below is anchored to.
const NOW: u64 = 1_000;
/// A window entirely in the future, so the schedule rule does not reject it.
const START: u64 = 1_100;
const END: u64 = 2_100;
const AMOUNT: i128 = 1_000;

/// A valid `create_stream` call that individual tests perturb one field at a
/// time, together with the contract's own address and its stored counter.
struct Case {
    _env: Env,
    contract: Address,
    sender: Address,
    recipient: Address,
    token: Address,
    count: Cell<u64>,
}

impl Case {
    fn new() -> Self {
        let env = Env::default();
        Self {
            contract: Address::generate(&env),
            sender: Address::generate(&env),
            recipient: Address::generate(&env),
            token: Address::generate(&env),
            count: Cell::new(0),
            _env: env,
        }
    }

    /// Validate the well-formed call, with `amount` substituted in.
    fn amount(&self, amount: i128) -> Result<(u64, u64), StreamError> {
        self.validate(amount, START, END, START)
    }

    /// Validate a fully specified call.
    fn validate(&self, amount: i128, start: u64, end: u64, cliff: u64) -> Result<(u64, u64), StreamError> {
        validate_stream_creation(
            &self.contract,
            &self.sender,
            &self.recipient,
            &self.token,
            amount,
            start,
            end,
            cliff,
            NOW,
            self.count.get(),
        )
    }

    /// Validate with explicit participants and token, for the identity rules.
    fn with_participants(
        &self,
        sender: &Address,
        recipient: &Address,
        token: &Address,
    ) -> Result<(u64, u64), StreamError> {
        validate_stream_creation(
            &self.contract,
            sender,
            recipient,
            token,
            AMOUNT,
            START,
            END,
            START,
            NOW,
            self.count.get(),
        )
    }

    fn set_stream_count(&self, count: u64) {
        self.count.set(count);
    }
}

// -- Accepted ---------------------------------------------------------

#[test]
fn accepts_a_well_formed_stream_and_reserves_the_first_id() {
    assert_eq!(Case::new().amount(AMOUNT), Ok((0, 1)));
}

#[test]
fn returns_the_current_counter_as_the_new_id() {
    let c = Case::new();
    c.set_stream_count(7);
    assert_eq!(c.amount(AMOUNT), Ok((7, 8)));
}

#[test]
fn accepts_an_amount_exactly_at_the_ceiling() {
    assert_eq!(Case::new().amount(MAX_AMOUNT), Ok((0, 1)));
}

#[test]
fn accepts_a_window_ending_one_second_ahead() {
    let c = Case::new();
    assert_eq!(c.validate(AMOUNT, NOW, NOW + 1, NOW), Ok((0, 1)));
}

#[test]
fn accepts_a_cliff_on_either_edge_of_the_window() {
    let c = Case::new();
    assert_eq!(c.validate(AMOUNT, START, END, START), Ok((0, 1)));
    assert_eq!(c.validate(AMOUNT, START, END, END), Ok((0, 1)));
}

#[test]
fn accepts_a_start_time_in_the_past() {
    let c = Case::new();
    assert_eq!(c.validate(AMOUNT, 0, END, 0), Ok((0, 1)));
}

// -- Rejected: participants -------------------------------------------

#[test]
fn rejects_sender_equal_to_recipient() {
    let c = Case::new();
    assert_eq!(
        c.with_participants(&c.sender, &c.sender, &c.token),
        Err(StreamError::InvalidParticipant)
    );
}

#[test]
fn rejects_token_equal_to_sender() {
    let c = Case::new();
    assert_eq!(
        c.with_participants(&c.sender, &c.recipient, &c.sender),
        Err(StreamError::InvalidParticipant)
    );
}

#[test]
fn rejects_token_equal_to_recipient() {
    let c = Case::new();
    assert_eq!(
        c.with_participants(&c.sender, &c.recipient, &c.recipient),
        Err(StreamError::InvalidParticipant)
    );
}

#[test]
fn rejects_the_contract_as_sender() {
    let c = Case::new();
    assert_eq!(
        c.with_participants(&c.contract, &c.recipient, &c.token),
        Err(StreamError::InvalidParticipant)
    );
}

#[test]
fn rejects_the_contract_as_recipient() {
    let c = Case::new();
    assert_eq!(
        c.with_participants(&c.sender, &c.contract, &c.token),
        Err(StreamError::InvalidParticipant)
    );
}

#[test]
fn rejects_the_contract_as_token() {
    let c = Case::new();
    assert_eq!(
        c.with_participants(&c.sender, &c.recipient, &c.contract),
        Err(StreamError::InvalidParticipant)
    );
}

// -- Rejected: amount -------------------------------------------------

#[test]
fn rejects_a_zero_amount() {
    assert_eq!(Case::new().amount(0), Err(StreamError::InvalidAmount));
}

#[test]
fn rejects_a_negative_amount() {
    assert_eq!(Case::new().amount(-1), Err(StreamError::InvalidAmount));
}

#[test]
fn rejects_an_amount_one_above_the_ceiling() {
    assert_eq!(
        Case::new().amount(MAX_AMOUNT + 1),
        Err(StreamError::AmountTooLarge)
    );
}

// -- Rejected: schedule ------------------------------------------------

#[test]
fn rejects_start_equal_to_end() {
    let c = Case::new();
    assert_eq!(
        c.validate(AMOUNT, START, START, START),
        Err(StreamError::InvalidTimeRange)
    );
}

#[test]
fn rejects_start_after_end() {
    let c = Case::new();
    assert_eq!(
        c.validate(AMOUNT, END, START, START),
        Err(StreamError::InvalidTimeRange)
    );
}

#[test]
fn rejects_a_cliff_before_the_window() {
    let c = Case::new();
    assert_eq!(
        c.validate(AMOUNT, START, END, START - 1),
        Err(StreamError::InvalidCliff)
    );
}

#[test]
fn rejects_a_cliff_after_the_window() {
    let c = Case::new();
    assert_eq!(
        c.validate(AMOUNT, START, END, END + 1),
        Err(StreamError::InvalidCliff)
    );
}

#[test]
fn rejects_a_window_that_has_already_closed() {
    let c = Case::new();
    assert_eq!(
        c.validate(AMOUNT, NOW - 10, NOW, NOW - 10),
        Err(StreamError::StreamWindowInPast)
    );
}

// -- Rejected: capacity ------------------------------------------------

#[test]
fn rejects_an_exhausted_counter() {
    let c = Case::new();
    c.set_stream_count(u64::MAX);
    assert_eq!(c.amount(AMOUNT), Err(StreamError::StreamCountExhausted));
}

#[test]
fn accepts_the_last_id_before_exhaustion() {
    let c = Case::new();
    c.set_stream_count(u64::MAX - 1);
    assert_eq!(c.amount(AMOUNT), Ok((u64::MAX - 1, u64::MAX)));
}

// -- Error precedence --------------------------------------------------

#[test]
fn a_bad_participant_outranks_a_bad_amount_and_schedule() {
    let c = Case::new();
    c.set_stream_count(u64::MAX);
    assert_eq!(
        validate_stream_creation(
            &c.contract,
            &c.sender,
            &c.sender,
            &c.token,
            0,
            END,
            START,
            END + 1,
            NOW,
            c.count.get(),
        ),
        Err(StreamError::InvalidParticipant)
    );
}

#[test]
fn a_bad_amount_outranks_a_bad_schedule_and_an_exhausted_counter() {
    let c = Case::new();
    c.set_stream_count(u64::MAX);
    assert_eq!(
        c.validate(0, END, START, END + 1),
        Err(StreamError::InvalidAmount)
    );
}

#[test]
fn a_bad_time_range_outranks_a_bad_cliff_and_an_exhausted_counter() {
    let c = Case::new();
    c.set_stream_count(u64::MAX);
    assert_eq!(
        c.validate(AMOUNT, END, START, END + 1),
        Err(StreamError::InvalidTimeRange)
    );
}

#[test]
fn a_bad_cliff_outranks_a_past_window_and_an_exhausted_counter() {
    let c = Case::new();
    c.set_stream_count(u64::MAX);
    assert_eq!(
        c.validate(AMOUNT, START, END, END + 1),
        Err(StreamError::InvalidCliff)
    );
}

#[test]
fn a_past_window_outranks_an_exhausted_counter() {
    let c = Case::new();
    c.set_stream_count(u64::MAX);
    assert_eq!(
        c.validate(AMOUNT, NOW - 10, NOW, NOW - 10),
        Err(StreamError::StreamWindowInPast)
    );
}

// -- No side effects ---------------------------------------------------

#[test]
fn a_rejected_call_leaves_the_counter_untouched() {
    let c = Case::new();
    c.set_stream_count(3);
    for outcome in [
        c.amount(0),
        c.amount(MAX_AMOUNT + 1),
        c.validate(AMOUNT, END, START, START),
        c.validate(AMOUNT, START, END, END + 1),
        c.validate(AMOUNT, NOW - 10, NOW, NOW - 10),
        c.with_participants(&c.sender, &c.sender, &c.token),
    ] {
        assert!(outcome.is_err(), "expected a rejection, got {:?}", outcome);
    }
    assert_eq!(c.amount(AMOUNT), Ok((3, 4)));
}

// -- Error codes ---------------------------------------------------------

#[test]
fn error_codes_are_stable_and_skip_the_retired_two() {
    let expected = [
        (StreamError::StreamNotFound, 1),
        (StreamError::InvalidTimeRange, 3),
        (StreamError::InvalidAmount, 4),
        (StreamError::InvalidCliff, 5),
        (StreamError::AlreadyCancelled, 6),
        (StreamError::NothingToWithdraw, 7),
        (StreamError::InsufficientBalance, 8),
        (StreamError::StreamAlreadyCompleted, 9),
        (StreamError::AmountTooLarge, 10),
        (StreamError::StreamWindowInPast, 11),
        (StreamError::StreamCountExhausted, 12),
        (StreamError::InvalidParticipant, 13),
    ];
    for (error, code) in expected {
        assert_eq!(error.code(), code);
        assert_eq!(StreamError::from_code(code), Some(error));
    }
    assert_eq!(StreamError::from_code(2), None);
    assert_eq!(StreamError::from_code(14), None);
}
