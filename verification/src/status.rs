//! Lifecycle status derivation.
use vstd::prelude::*;

use crate::types::{Stream, StreamStatus};

verus! {

/// Lifecycle status of a stream with the given flag and window at `now`:
/// cancellation first, then the schedule.
pub open spec fn status_spec(cancelled: bool, start_time: u64, end_time: u64, now: u64) -> StreamStatus {
    if cancelled {
        StreamStatus::Cancelled
    } else if now < start_time {
        StreamStatus::Pending
    } else if now >= end_time {
        StreamStatus::Completed
    } else {
        StreamStatus::Streaming
    }
}

/// Lifecycle status of `stream` at `now`.
pub open spec fn status_of(stream: Stream, now: u64) -> StreamStatus {
    status_spec(stream.cancelled, stream.start_time, stream.end_time, now)
}

/// Lifecycle status of `stream` at the time `now`.
///
/// `Cancelled` takes precedence at every time; otherwise `Pending` before
/// `start_time`, `Completed` at or after `end_time`, and `Streaming` in between.
pub fn stream_status(stream: &Stream, now: u64) -> (status: StreamStatus)
    ensures
        status == status_of(*stream, now),
{
    if stream.cancelled {
        return StreamStatus::Cancelled;
    }
    if now < stream.start_time {
        return StreamStatus::Pending;
    }
    if now >= stream.end_time {
        return StreamStatus::Completed;
    }
    StreamStatus::Streaming
}

/// The cliff gates withdrawal, not the lifecycle: changing it never changes the status.
pub proof fn lemma_status_ignores_cliff(stream: Stream, cliff_time: u64, now: u64)
    ensures
        status_of(Stream { cliff_time, ..stream }, now) == status_of(stream, now),
{
}

/// A cancelled stream reports `Cancelled` at every instant, and only a
/// cancelled stream does.
pub proof fn lemma_cancelled_always_wins(stream: Stream, now: u64)
    ensures
        (status_of(stream, now) == StreamStatus::Cancelled) == stream.cancelled,
{
}

/// For a stream that is not cancelled, the status only moves forward as time
/// passes: `Pending`, then `Streaming`, then `Completed`.
pub proof fn lemma_status_moves_forward(stream: Stream, earlier: u64, later: u64)
    requires
        !stream.cancelled,
        stream.start_time <= stream.end_time,
        earlier <= later,
    ensures
        status_of(stream, earlier) == StreamStatus::Completed ==> status_of(stream, later) == StreamStatus::Completed,
        status_of(stream, later) == StreamStatus::Pending ==> status_of(stream, earlier) == StreamStatus::Pending,
{
}

} // verus!
