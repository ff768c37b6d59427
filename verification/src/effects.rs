//! What a successful operation asks the host to do, in order.
use soroban_sdk::Address;
use vstd::prelude::*;

use crate::error::StreamError;
use crate::events::{Cancelled, Created, Withdrawn};
use crate::types::Stream;

verus! {

/// One step the host performs on behalf of an operation.
#[derive(Clone, Debug, PartialEq, Eq)]
pub enum Effect {
    /// Move `amount` of `token` from `from` to `to`.
    Transfer { token: Address, from: Address, to: Address, amount: i128 },
    /// Store `stream` under id `id`, refreshing its lifetime.
    SetStream { id: u64, stream: Stream },
    /// Store the id counter.
    SetStreamCount { count: u64 },
    /// Refresh the lifetime of the contract instance, which holds the counter.
    ExtendInstanceTtl,
    /// Announce a new stream.
    PublishCreated { event: Created },
    /// Announce a withdrawal.
    PublishWithdrawn { event: Withdrawn },
    /// Announce a cancellation.
    PublishCancelled { event: Cancelled },
}

/// The result of an operation with its effects taken as a sequence.
pub open spec fn outcome_view<T>(r: Result<(T, Vec<Effect>), StreamError>) -> Result<(T, Seq<Effect>), StreamError> {
    match r {
        Ok((value, effects)) => Ok((value, effects@)),
        Err(e) => Err(e),
    }
}

} // verus!
