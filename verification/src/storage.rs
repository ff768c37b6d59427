//! Storage keys and entry lifetimes.
//!
//! The contract keeps two kinds of entry: the id counter under
//! [`DataKey::StreamCount`] in instance storage, and one stream record per id
//! under [`DataKey::Stream`] in persistent storage. Both are extended to
//! [`ENTRY_TTL`] ledgers whenever fewer than [`BUMP_THRESHOLD`] remain.
use vstd::prelude::*;

verus! {

/// Number of ledgers an entry lives before it must be bumped: thirty days at a
/// five second ledger close, `30 * 86_400 / 5`.
pub const ENTRY_TTL: u32 = 518_400u32;

/// When an accessed entry has fewer than this many ledgers left, it is extended
/// back up to [`ENTRY_TTL`]: one fifth of it, about six days.
pub const BUMP_THRESHOLD: u32 = 103_680u32;

/// Keys for entries the contract keeps in storage.
#[derive(Copy, Clone, Debug, PartialEq, Eq, Structural)]
pub enum DataKey {
    /// Monotonic counter holding the id to assign to the next stream.
    StreamCount,
    /// A single stream record, keyed by its numeric id.
    Stream(u64),
}

/// The threshold is one fifth of the lifetime, so an entry touched at least
/// once per `ENTRY_TTL - BUMP_THRESHOLD` ledgers is never archived.
pub proof fn lemma_bump_threshold_is_a_fifth_of_the_lifetime()
    ensures
        BUMP_THRESHOLD * 5 == ENTRY_TTL,
        BUMP_THRESHOLD < ENTRY_TTL,
{
}

} // verus!
