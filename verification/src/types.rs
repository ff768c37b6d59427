//! The stream record and its lifecycle status.
use soroban_sdk::Address;
use vstd::prelude::*;

use crate::contract::MAX_AMOUNT;
use crate::vesting::{vested_spec, withdrawable_spec};

verus! {

/// A single token stream from a sender to a recipient.
///
/// Tokens vest linearly from `start_time` to `end_time`, with nothing
/// withdrawable before `cliff_time`. Amounts are in the token's smallest unit,
/// times are Unix timestamps in seconds.
#[derive(Clone, Debug, PartialEq, Eq)]
pub struct Stream {
    /// Account that funded the stream and may cancel it.
    pub sender: Address,
    /// Account that accrues and withdraws the streamed tokens.
    pub recipient: Address,
    /// Address of the token contract whose balance is being streamed.
    pub token: Address,
    /// The amount available for vesting; frozen at the vested amount on cancellation.
    pub total_amount: i128,
    /// Cumulative amount the recipient has already withdrawn.
    pub withdrawn: i128,
    /// Unix timestamp in seconds at which linear vesting begins.
    pub start_time: u64,
    /// Unix timestamp in seconds at which the stream is fully vested.
    pub end_time: u64,
    /// Unix timestamp in seconds before which nothing may be withdrawn.
    pub cliff_time: u64,
    /// `true` once the sender has cancelled the stream.
    pub cancelled: bool,
}

/// The lifecycle state of a stream, derived from its fields and the current
/// ledger time.
#[derive(Copy, Clone, Debug, PartialEq, Eq, Structural)]
pub enum StreamStatus {
    /// The current ledger time is before `start_time`; nothing has vested yet.
    Pending,
    /// The current ledger time is in `[start_time, end_time)`.
    Streaming,
    /// The current ledger time is at or after `end_time`.
    Completed,
    /// The sender cancelled the stream; this overrides the time-based state.
    Cancelled,
}

impl Stream {
    /// Both amounts lie in `[0, MAX_AMOUNT]`, as for every stream the contract
    /// stores: the vesting arithmetic on such a stream cannot overflow.
    pub open spec fn well_formed(&self) -> bool {
        &&& 0 <= self.total_amount <= MAX_AMOUNT
        &&& 0 <= self.withdrawn <= MAX_AMOUNT
    }

    /// Amount vested at `now`.
    pub open spec fn vested_at(&self, now: int) -> int {
        vested_spec(
            self.total_amount as int,
            self.start_time as int,
            self.end_time as int,
            self.cliff_time as int,
            now,
        )
    }

    /// Amount the recipient may withdraw at `now`.
    pub open spec fn withdrawable_at(&self, now: int) -> int {
        withdrawable_spec(self.vested_at(now), self.withdrawn as int)
    }

    /// The schedule is in order: `start_time <= cliff_time <= end_time`, as
    /// for every stream the contract stores.
    pub open spec fn schedule_ordered(&self) -> bool {
        self.start_time <= self.cliff_time <= self.end_time
    }

    /// Well formed, and the recipient has never taken more than has vested by `now`.
    pub open spec fn consistent_at(&self, now: int) -> bool {
        &&& self.well_formed()
        &&& self.withdrawn <= self.vested_at(now)
    }
}

} // verus!
