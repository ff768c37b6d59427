//! The events the stream contract announces, as plain values.
//!
//! The field order of each event is part of the contract's interface.
use soroban_sdk::Address;
use vstd::prelude::*;

use crate::contract::Cancellation;
use crate::types::Stream;

verus! {

/// Announced when a new stream is opened.
#[derive(Clone, Debug, PartialEq, Eq)]
pub struct Created {
    /// The address that funded the stream (indexed).
    pub sender: Address,
    /// The address that will receive the vested tokens (indexed).
    pub recipient: Address,
    /// The id assigned to the new stream.
    pub id: u64,
    /// The token contract address.
    pub token: Address,
    /// Total tokens locked into the stream.
    pub total_amount: i128,
    /// When vesting begins.
    pub start_time: u64,
    /// When the stream is fully vested.
    pub end_time: u64,
    /// Before this time nothing can be withdrawn.
    pub cliff_time: u64,
}

/// Announced when a recipient withdraws vested tokens.
#[derive(Clone, Debug, PartialEq, Eq)]
pub struct Withdrawn {
    /// The address that received the tokens (indexed).
    pub recipient: Address,
    /// The stream that was drawn from.
    pub id: u64,
    /// Number of tokens transferred.
    pub amount: i128,
}

/// Announced when a sender cancels a stream.
#[derive(Clone, Debug, PartialEq, Eq)]
pub struct Cancelled {
    /// The address that cancelled the stream and received the refund (indexed).
    pub sender: Address,
    /// The stream that was cancelled.
    pub id: u64,
    /// Vested tokens still claimable by the recipient.
    pub recipient_amount: i128,
    /// Unvested tokens refunded to the sender.
    pub sender_refund: i128,
}

/// The creation event for stream `id`: every field read from the stream.
pub open spec fn created_event(id: u64, s: Stream) -> Created {
    Created {
        sender: s.sender,
        recipient: s.recipient,
        id,
        token: s.token,
        total_amount: s.total_amount,
        start_time: s.start_time,
        end_time: s.end_time,
        cliff_time: s.cliff_time,
    }
}

/// The withdrawal event for `amount` paid from stream `id` to its recipient.
pub open spec fn withdrawn_event(id: u64, s: Stream, amount: i128) -> Withdrawn {
    Withdrawn { recipient: s.recipient, id, amount }
}

/// The cancellation event for stream `id`, carrying both sides of the split.
pub open spec fn cancelled_event(id: u64, s: Stream, settled: Cancellation) -> Cancelled {
    Cancelled {
        sender: s.sender,
        id,
        recipient_amount: settled.recipient_amount,
        sender_refund: settled.sender_refund,
    }
}

impl Created {
    /// The creation event for stream `id`, every field read from the stored stream.
    pub fn for_stream(id: u64, stream: &Stream) -> (e: Created)
        ensures
            e == created_event(id, *stream),
    {
        Created {
            sender: stream.sender.clone(),
            recipient: stream.recipient.clone(),
            id,
            token: stream.token.clone(),
            total_amount: stream.total_amount,
            start_time: stream.start_time,
            end_time: stream.end_time,
            cliff_time: stream.cliff_time,
        }
    }
}

impl Withdrawn {
    /// The withdrawal event for `amount` sent to the stream's recipient.
    pub fn for_stream(id: u64, stream: &Stream, amount: i128) -> (e: Withdrawn)
        ensures
            e == withdrawn_event(id, *stream, amount),
    {
        Withdrawn { recipient: stream.recipient.clone(), id, amount }
    }
}

impl Cancelled {
    /// The cancellation event for stream `id`, carrying both sides of the split.
    pub fn for_stream(id: u64, stream: &Stream, settled: Cancellation) -> (e: Cancelled)
        ensures
            e == cancelled_event(id, *stream, settled),
    {
        Cancelled {
            sender: stream.sender.clone(),
            id,
            recipient_amount: settled.recipient_amount,
            sender_refund: settled.sender_refund,
        }
    }
}

} // verus!
