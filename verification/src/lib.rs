//! Linear token streaming and vesting.
//!
//! A sender deposits a total amount up front; it vests linearly to a recipient
//! from `start_time` to `end_time`, with nothing withdrawable before an
//! optional `cliff_time`. The recipient withdraws what has vested, in full or
//! in part; the sender may cancel before the end, taking back the unvested
//! remainder while the vested part stays claimable.
//!
//! - [`vesting`]: the vesting arithmetic on plain numbers.
//! - [`contract`]: what each entry point of the contract decides, given the
//!   stored stream and the ledger clock, and the stream it leaves behind.
//! - [`status`]: the lifecycle status of a stream.
//! - [`events`]: the announcements of each successful operation.
//! - [`storage`]: storage keys and entry lifetimes.
//! - [`laws`]: properties that hold across operations.
//! - [`ledger`]: the contract's state over its whole life, and the invariant
//!   every reachable state keeps.
//! - [`address`]: what the library relies on about `soroban_sdk::Address`.

pub mod address;
pub mod contract;
pub mod effects;
pub mod error;
pub mod events;
pub mod laws;
pub mod ledger;
pub mod status;
pub mod storage;
pub mod types;
pub mod vesting;

pub use contract::{Cancellation, StreamContract, MAX_AMOUNT};
pub use effects::Effect;
pub use error::StreamError;
pub use events::{Cancelled, Created, Withdrawn};
pub use storage::DataKey;
pub use types::{Stream, StreamStatus};
