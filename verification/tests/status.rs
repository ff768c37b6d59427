use soroban_sdk::testutils::Address as _;
use soroban_sdk::{Address, Env};
use tricklepay_stream::status::stream_status;
use tricklepay_stream::{Stream, StreamStatus};

/// A stream of 1000 units over `[100, 1100]`, no cliff (`cliff == start`).
fn stream(cancelled: bool) -> Stream {
    let env = Env::default();
    Stream {
        sender: Address::generate(&env),
        recipient: Address::generate(&env),
        token: Address::generate(&env),
        total_amount: 1_000,
        withdrawn: 0,
        start_time: 100,
        end_time: 1_100,
        cliff_time: 100,
        cancelled,
    }
}

#[test]
fn pending_before_start() {
    assert_eq!(stream_status(&stream(false), 99), StreamStatus::Pending);
}

#[test]
fn streaming_at_start() {
    assert_eq!(stream_status(&stream(false), 100), StreamStatus::Streaming);
}

#[test]
fn streaming_before_end() {
    assert_eq!(stream_status(&stream(false), 1_099), StreamStatus::Streaming);
}

#[test]
fn completed_at_end() {
    assert_eq!(stream_status(&stream(false), 1_100), StreamStatus::Completed);
}

#[test]
fn completed_after_end() {
    assert_eq!(stream_status(&stream(false), 9_999), StreamStatus::Completed);
}

#[test]
fn cancelled_before_start_reports_cancelled() {
    assert_eq!(stream_status(&stream(true), 50), StreamStatus::Cancelled);
}

#[test]
fn cancelled_while_streaming_reports_cancelled() {
    assert_eq!(stream_status(&stream(true), 600), StreamStatus::Cancelled);
}

#[test]
fn cancelled_after_end_reports_cancelled() {
    assert_eq!(stream_status(&stream(true), 1_100), StreamStatus::Cancelled);
}

#[test]
fn boundaries_cover_every_instant_without_gaps_or_overlap() {
    let s = stream(false);
    assert_eq!(stream_status(&s, 0), StreamStatus::Pending);
    assert_eq!(stream_status(&s, 99), StreamStatus::Pending);
    assert_eq!(stream_status(&s, 100), StreamStatus::Streaming);
    assert_eq!(stream_status(&s, 1_099), StreamStatus::Streaming);
    assert_eq!(stream_status(&s, 1_100), StreamStatus::Completed);
    assert_eq!(stream_status(&s, u64::MAX), StreamStatus::Completed);
}

#[test]
fn cliff_does_not_affect_status() {
    let mut s = stream(false);
    s.cliff_time = 600;

    assert_eq!(stream_status(&s, 300), StreamStatus::Streaming);
    assert_eq!(stream_status(&s, 600), StreamStatus::Streaming);
    assert_eq!(stream_status(&s, 1_099), StreamStatus::Streaming);
}
