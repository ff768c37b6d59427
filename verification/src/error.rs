//! Errors the stream contract reports.
use vstd::prelude::*;

verus! {

/// Errors returned by the stream contract.
///
/// Each variant has a stable integer code, given by [`StreamError::code`], that
/// callers and indexers match on. Code 2 is retired and never reused.
#[derive(Copy, Clone, Debug, PartialEq, Eq, Structural)]
pub enum StreamError {
    /// No stream exists for the requested identifier.
    StreamNotFound,
    /// The start time is not strictly before the end time.
    InvalidTimeRange,
    /// The total amount is zero or negative.
    InvalidAmount,
    /// The cliff falls outside the stream's start and end window.
    InvalidCliff,
    /// The stream has already been cancelled.
    AlreadyCancelled,
    /// There is nothing available to withdraw right now.
    NothingToWithdraw,
    /// The requested withdrawal is larger than the available balance.
    InsufficientBalance,
    /// The stream has already completed (now >= end_time) and cannot be cancelled.
    StreamAlreadyCompleted,
    /// `total_amount` exceeds the maximum allowed value.
    AmountTooLarge,
    /// The stream's time window ends entirely in the past.
    StreamWindowInPast,
    /// The stream counter has no ids left to assign.
    StreamCountExhausted,
    /// A participant address is not valid for the role it was given.
    InvalidParticipant,
}

/// The interface code of each error.
pub open spec fn error_code(e: StreamError) -> u32 {
    match e {
        StreamError::StreamNotFound => 1,
        StreamError::InvalidTimeRange => 3,
        StreamError::InvalidAmount => 4,
        StreamError::InvalidCliff => 5,
        StreamError::AlreadyCancelled => 6,
        StreamError::NothingToWithdraw => 7,
        StreamError::InsufficientBalance => 8,
        StreamError::StreamAlreadyCompleted => 9,
        StreamError::AmountTooLarge => 10,
        StreamError::StreamWindowInPast => 11,
        StreamError::StreamCountExhausted => 12,
        StreamError::InvalidParticipant => 13,
    }
}

impl StreamError {
    /// The stable integer code of this error.
    pub fn code(&self) -> (c: u32)
        ensures
            c == error_code(*self),
    {
        match self {
            StreamError::StreamNotFound => 1,
            StreamError::InvalidTimeRange => 3,
            StreamError::InvalidAmount => 4,
            StreamError::InvalidCliff => 5,
            StreamError::AlreadyCancelled => 6,
            StreamError::NothingToWithdraw => 7,
            StreamError::InsufficientBalance => 8,
            StreamError::StreamAlreadyCompleted => 9,
            StreamError::AmountTooLarge => 10,
            StreamError::StreamWindowInPast => 11,
            StreamError::StreamCountExhausted => 12,
            StreamError::InvalidParticipant => 13,
        }
    }

    /// The error with interface code `code`, if there is one.
    pub fn from_code(code: u32) -> (e: Option<StreamError>)
        ensures
            match e {
                Some(err) => error_code(err) == code,
                None => forall|err: StreamError| error_code(err) != code,
            },
    {
        match code {
            1 => Some(StreamError::StreamNotFound),
            3 => Some(StreamError::InvalidTimeRange),
            4 => Some(StreamError::InvalidAmount),
            5 => Some(StreamError::InvalidCliff),
            6 => Some(StreamError::AlreadyCancelled),
            7 => Some(StreamError::NothingToWithdraw),
            8 => Some(StreamError::InsufficientBalance),
            9 => Some(StreamError::StreamAlreadyCompleted),
            10 => Some(StreamError::AmountTooLarge),
            11 => Some(StreamError::StreamWindowInPast),
            12 => Some(StreamError::StreamCountExhausted),
            13 => Some(StreamError::InvalidParticipant),
            _ => None,
        }
    }
}

} // verus!
