//! The contract's state over its whole life, and what every entry point keeps
//! true of it.
//!
//! A [`Book`] is what the contract holds: the id counter, the stored streams
//! by id, and its own balance of each token. Applying the effects an operation
//! returns moves a book to the next one. From a fresh deployment, every book
//! the entry points can reach satisfies [`book_invariant`]: the stored ids are
//! exactly `0..count`, every stored stream is well formed with an ordered
//! schedule and participants other than the contract, and the contract's
//! balance of each token is exactly what its streams in that token still hold.
use soroban_sdk::Address;
use vstd::prelude::*;

use crate::contract::{
    cancel_outcome, cancel_spec, cancellation_effects, creation_effects, creation_outcome,
    lemma_well_formed_vesting_fits, opened_stream, participants_coincide, withdraw_amount_outcome,
    withdraw_amount_spec, withdraw_outcome, withdraw_spec, withdrawal_effects,
};
use crate::effects::Effect;
use crate::error::StreamError;
use crate::types::Stream;

verus! {

/// The contract's state: the id counter, the stored streams by id, and the
/// contract's own balance of each token.
pub struct Book {
    /// The id the next stream gets.
    pub count: u64,
    /// The stored streams, by id.
    pub streams: Map<u64, Stream>,
    /// The contract's balance of each token.
    pub balance: spec_fn(Address) -> int,
}

/// The book of a freshly deployed contract: no streams, no tokens.
pub open spec fn fresh_book() -> Book {
    Book { count: 0, streams: Map::empty(), balance: |k: Address| 0int }
}

/// The book after one effect, for the contract at address `this`. Transfers
/// move this contract's balance of their token; storage writes replace a stream
/// or the counter; lifetimes and announcements leave the book as it is.
pub open spec fn apply_effect(b: Book, this: Address, e: Effect) -> Book {
    match e {
        Effect::Transfer { token, from, to, amount } => Book {
            balance: |k: Address|
                (b.balance)(k) + (if k == token && to == this { amount as int } else { 0 }) - (if k == token && from
                    == this {
                    amount as int
                } else {
                    0
                }),
            ..b
        },
        Effect::SetStream { id, stream } => Book { streams: b.streams.insert(id, stream), ..b },
        Effect::SetStreamCount { count } => Book { count, ..b },
        _ => b,
    }
}

/// The book after a sequence of effects, applied in order.
pub open spec fn apply_effects(b: Book, this: Address, effects: Seq<Effect>) -> Book
    decreases effects.len(),
{
    if effects.len() == 0 {
        b
    } else {
        apply_effect(apply_effects(b, this, effects.drop_last()), this, effects.last())
    }
}

/// What stream `s` still holds in `token`: its total less what was withdrawn,
/// if it streams that token.
pub open spec fn holding(s: Stream, token: Address) -> int {
    if s.token == token {
        s.total_amount - s.withdrawn
    } else {
        0
    }
}

/// What the streams with ids below `n` still hold in `token`.
pub open spec fn held_below(streams: Map<u64, Stream>, token: Address, n: nat) -> int
    decreases n,
{
    if n == 0 {
        0
    } else {
        let id = (n - 1) as u64;
        held_below(streams, token, (n - 1) as nat) + if streams.contains_key(id) {
            holding(streams[id], token)
        } else {
            0
        }
    }
}

/// A stream as the contract stores it: amounts in range, schedule in order,
/// and neither participant the contract itself.
pub open spec fn stored_ok(s: Stream, this: Address) -> bool {
    &&& s.well_formed()
    &&& s.schedule_ordered()
    &&& s.sender != this
    &&& s.recipient != this
}

/// What holds of every book the contract at `this` can reach.
pub open spec fn book_invariant(b: Book, this: Address) -> bool {
    &&& forall|j: u64| #[trigger] b.streams.contains_key(j) <==> j < b.count
    &&& forall|j: u64| #[trigger] b.streams.contains_key(j) ==> stored_ok(b.streams[j], this)
    &&& forall|k: Address| #[trigger] (b.balance)(k) == held_below(b.streams, k, b.count as nat)
}

/// The holdings below `n` depend only on the streams stored below `n`.
pub proof fn lemma_held_below_frame(s1: Map<u64, Stream>, s2: Map<u64, Stream>, token: Address, n: nat)
    requires
        n <= u64::MAX + 1,
        forall|j: u64| j < n ==> (#[trigger] s1.contains_key(j) <==> s2.contains_key(j)),
        forall|j: u64| j < n && #[trigger] s1.contains_key(j) ==> s1[j] == s2[j],
    ensures
        held_below(s1, token, n) == held_below(s2, token, n),
    decreases n,
{
    if n > 0 {
        lemma_held_below_frame(s1, s2, token, (n - 1) as nat);
        let id = (n - 1) as u64;
        assert(s1.contains_key(id) <==> s2.contains_key(id));
    }
}

/// Replacing the stream stored under `id < n` by one in the same token changes
/// the holdings below `n` by the change in what that stream holds.
pub proof fn lemma_held_below_replace(streams: Map<u64, Stream>, id: u64, s: Stream, token: Address, n: nat)
    requires
        n <= u64::MAX + 1,
        id < n,
        streams.contains_key(id),
        s.token == streams[id].token,
    ensures
        held_below(streams.insert(id, s), token, n) == held_below(streams, token, n) + holding(s, token) - holding(
            streams[id],
            token,
        ),
    decreases n,
{
    let m = (n - 1) as nat;
    if id < m {
        lemma_held_below_replace(streams, id, s, token, m);
    } else {
        lemma_held_below_frame(streams.insert(id, s), streams, token, m);
    }
}

/// Storing a stream under `n`, just past the holdings counted so far, adds what
/// it holds.
pub proof fn lemma_held_below_append(streams: Map<u64, Stream>, n: u64, s: Stream, token: Address)
    ensures
        held_below(streams.insert(n, s), token, n as nat + 1) == held_below(streams, token, n as nat) + holding(
            s,
            token,
        ),
{
    lemma_held_below_frame(streams.insert(n, s), streams, token, n as nat);
}

/// A fresh deployment satisfies the invariant.
pub proof fn lemma_fresh_book(this: Address)
    ensures
        book_invariant(fresh_book(), this),
{
}

/// A successful creation, on the counter the book holds, keeps the invariant:
/// the new stream is stored under the old counter, the counter advances by one,
/// and the deposit lands in the contract's balance of the stream's token.
pub proof fn lemma_create_keeps_book(
    b: Book,
    this: Address,
    sender: Address,
    recipient: Address,
    token: Address,
    total_amount: i128,
    start_time: u64,
    end_time: u64,
    cliff_time: u64,
    now: u64,
    id: u64,
)
    requires
        book_invariant(b, this),
        creation_outcome(true, total_amount, start_time, end_time, cliff_time, now, b.count) == Ok::<
            (u64, u64),
            StreamError,
        >((id, (id + 1) as u64)),
        !participants_coincide(this, sender, recipient, token),
    ensures
        ({
            let s = opened_stream(sender, recipient, token, total_amount, start_time, end_time, cliff_time);
            let after = apply_effects(b, this, creation_effects(this, id, (id + 1) as u64, s));
            &&& book_invariant(after, this)
            &&& after.count == b.count + 1
            &&& after.streams == b.streams.insert(id, s)
        }),
{
    let s = opened_stream(sender, recipient, token, total_amount, start_time, end_time, cliff_time);
    let effects = creation_effects(this, id, (id + 1) as u64, s);
    reveal_with_fuel(apply_effects, 6);
    assert(effects.drop_last().drop_last().drop_last().drop_last().drop_last() =~= Seq::<Effect>::empty());
    let after = apply_effects(b, this, effects);
    assert(after.streams == b.streams.insert(id, s));
    assert(after.count == b.count + 1);
    assert forall|j: u64| #[trigger] after.streams.contains_key(j) implies stored_ok(after.streams[j], this) by {
        if j != id {
            assert(b.streams.contains_key(j));
        }
    }
    assert forall|k: Address| #[trigger] (after.balance)(k) == held_below(after.streams, k, after.count as nat) by {
        lemma_held_below_append(b.streams, id, s, k);
        assert((b.balance)(k) == held_below(b.streams, k, b.count as nat));
    }
}

/// The book after a withdrawal of `paid` from stream `id`, updated to `s2`, is
/// consistent when the stream was.
proof fn lemma_withdrawal_keeps_book(b: Book, this: Address, id: u64, s2: Stream, paid: i128)
    requires
        book_invariant(b, this),
        b.streams.contains_key(id),
        stored_ok(s2, this),
        s2.token == b.streams[id].token,
        s2.recipient == b.streams[id].recipient,
        s2.total_amount == b.streams[id].total_amount,
        s2.withdrawn == b.streams[id].withdrawn + paid,
    ensures
        ({
            let after = apply_effects(b, this, withdrawal_effects(this, id, s2, paid));
            &&& book_invariant(after, this)
            &&& after.count == b.count
            &&& after.streams == b.streams.insert(id, s2)
        }),
{
    let effects = withdrawal_effects(this, id, s2, paid);
    reveal_with_fuel(apply_effects, 4);
    assert(effects.drop_last().drop_last().drop_last() =~= Seq::<Effect>::empty());
    let after = apply_effects(b, this, effects);
    assert(after.streams == b.streams.insert(id, s2));
    assert forall|j: u64| #[trigger] after.streams.contains_key(j) implies stored_ok(after.streams[j], this) by {
        if j != id {
            assert(b.streams.contains_key(j));
        }
    }
    assert forall|k: Address| #[trigger] (after.balance)(k) == held_below(after.streams, k, after.count as nat) by {
        lemma_held_below_replace(b.streams, id, s2, k, b.count as nat);
        assert((b.balance)(k) == held_below(b.streams, k, b.count as nat));
    }
}

/// A full withdrawal from a stored stream keeps the invariant, and a refused
/// one leaves the book as it is.
pub proof fn lemma_withdraw_keeps_book(b: Book, this: Address, id: u64, now: u64)
    requires
        book_invariant(b, this),
        b.streams.contains_key(id),
    ensures
        withdraw_outcome(this, id, b.streams[id], now) matches Ok((paid, effects)) ==> {
            &&& book_invariant(apply_effects(b, this, effects), this)
            &&& apply_effects(b, this, effects).count == b.count
            &&& apply_effects(b, this, effects).streams == b.streams.insert(id, withdraw_spec(b.streams[id], now).0)
        },
{
    let s = b.streams[id];
    assert(stored_ok(s, this));
    lemma_well_formed_vesting_fits(s, now);
    if let (s2, Ok(paid)) = withdraw_spec(s, now) {
        lemma_withdrawal_keeps_book(b, this, id, s2, paid);
    }
}

/// A partial withdrawal from a stored stream keeps the invariant, and a
/// refused one leaves the book as it is.
pub proof fn lemma_withdraw_amount_keeps_book(b: Book, this: Address, id: u64, amount: i128, now: u64)
    requires
        book_invariant(b, this),
        b.streams.contains_key(id),
    ensures
        withdraw_amount_outcome(this, id, b.streams[id], amount, now) matches Ok((paid, effects)) ==> {
            &&& book_invariant(apply_effects(b, this, effects), this)
            &&& apply_effects(b, this, effects).count == b.count
            &&& apply_effects(b, this, effects).streams == b.streams.insert(
                id,
                withdraw_amount_spec(b.streams[id], amount, now).0,
            )
        },
{
    let s = b.streams[id];
    assert(stored_ok(s, this));
    lemma_well_formed_vesting_fits(s, now);
    if let (s2, Ok(paid)) = withdraw_amount_spec(s, amount, now) {
        lemma_withdrawal_keeps_book(b, this, id, s2, paid);
    }
}

/// Cancelling a stored stream keeps the invariant: the refund leaves the
/// contract's balance exactly as the stream's holding shrinks to the
/// recipient's remaining claim. A refused cancellation leaves the book as it is.
pub proof fn lemma_cancel_keeps_book(b: Book, this: Address, id: u64, now: u64)
    requires
        book_invariant(b, this),
        b.streams.contains_key(id),
    ensures
        cancel_outcome(this, id, b.streams[id], now) matches Ok((refund, effects)) ==> {
            &&& book_invariant(apply_effects(b, this, effects), this)
            &&& apply_effects(b, this, effects).count == b.count
            &&& apply_effects(b, this, effects).streams == b.streams.insert(id, cancel_spec(b.streams[id], now).0)
            &&& refund + cancel_spec(b.streams[id], now).0.total_amount == b.streams[id].total_amount
            &&& cancel_spec(b.streams[id], now).0.withdrawn == b.streams[id].withdrawn
        },
{
    let s = b.streams[id];
    assert(stored_ok(s, this));
    lemma_well_formed_vesting_fits(s, now);
    if let (s2, Ok(settled)) = cancel_spec(s, now) {
        lemma_cancel_freezes_the_schedule(s, now, now);
        let effects = cancellation_effects(this, id, s2, settled);
        reveal_with_fuel(apply_effects, 4);
        if settled.sender_refund > 0 {
            assert(effects.drop_last().drop_last().drop_last() =~= Seq::<Effect>::empty());
        } else {
            assert(effects.drop_last().drop_last() =~= Seq::<Effect>::empty());
        }
        let after = apply_effects(b, this, effects);
        assert(after.streams == b.streams.insert(id, s2));
        assert(after.count == b.count);
        assert forall|j: u64| #[trigger] after.streams.contains_key(j) implies stored_ok(after.streams[j], this) by {
            if j != id {
                assert(b.streams.contains_key(j));
            }
        }
        assert forall|k: Address| #[trigger] (after.balance)(k) == held_below(after.streams, k, after.count as nat) by {
            lemma_held_below_replace(b.streams, id, s2, k, b.count as nat);
            assert((b.balance)(k) == held_below(b.streams, k, b.count as nat));
        }
    }
}

/// Cancellation freezes an ordered stream: the schedule stays in order, the
/// window ends at the cancellation time, and from then on everything left in
/// the stream has vested, so nothing more vests.
pub proof fn lemma_cancel_freezes_the_schedule(s: Stream, now: u64, later: u64)
    requires
        s.well_formed(),
        s.schedule_ordered(),
        cancel_spec(s, now).1 is Ok,
        now <= later,
    ensures
        cancel_spec(s, now).0.schedule_ordered(),
        cancel_spec(s, now).0.end_time == now,
        cancel_spec(s, now).0.vested_at(later as int) == cancel_spec(s, now).0.total_amount,
        cancel_spec(s, now).0.well_formed(),
{
    lemma_well_formed_vesting_fits(s, now);
}

/// An operation on an id the book does not hold is refused with
/// `StreamNotFound` and changes nothing; `stream_count` reports the counter,
/// which is one past the highest stored id.
pub proof fn lemma_ids_are_exactly_below_the_counter(b: Book, this: Address, id: u64)
    requires
        book_invariant(b, this),
    ensures
        b.streams.contains_key(id) <==> id < b.count,
        b.streams.dom() == Set::new(|j: u64| j < b.count),
{
    assert(b.streams.dom() =~= Set::new(|j: u64| j < b.count));
}

/// One call of a mutating entry point, with the ledger time it runs at.
pub enum Operation {
    /// `create_stream`; `found_distinct` is what the host's comparison of the
    /// participants found (identical addresses are never found distinct).
    Create {
        sender: Address,
        recipient: Address,
        token: Address,
        total_amount: i128,
        start_time: u64,
        end_time: u64,
        cliff_time: u64,
        now: u64,
        found_distinct: bool,
    },
    /// `withdraw` on stream `id`.
    Withdraw { id: u64, now: u64 },
    /// `withdraw_amount` on stream `id`.
    WithdrawAmount { id: u64, amount: i128, now: u64 },
    /// `cancel` on stream `id`.
    Cancel { id: u64, now: u64 },
}

/// The book after one call: the effects of a successful call applied, or the
/// book unchanged when the call is refused (an unknown id is refused with
/// `StreamNotFound` before anything else).
pub open spec fn step(b: Book, this: Address, op: Operation) -> Book {
    match op {
        Operation::Create {
            sender,
            recipient,
            token,
            total_amount,
            start_time,
            end_time,
            cliff_time,
            now,
            found_distinct,
        } => {
            let distinct = found_distinct && !participants_coincide(this, sender, recipient, token);
            match creation_outcome(distinct, total_amount, start_time, end_time, cliff_time, now, b.count) {
                Ok((id, next)) => apply_effects(
                    b,
                    this,
                    creation_effects(
                        this,
                        id,
                        next,
                        opened_stream(sender, recipient, token, total_amount, start_time, end_time, cliff_time),
                    ),
                ),
                Err(_) => b,
            }
        },
        Operation::Withdraw { id, now } => if !b.streams.contains_key(id) {
            b
        } else {
            match withdraw_outcome(this, id, b.streams[id], now) {
                Ok((_, effects)) => apply_effects(b, this, effects),
                Err(_) => b,
            }
        },
        Operation::WithdrawAmount { id, amount, now } => if !b.streams.contains_key(id) {
            b
        } else {
            match withdraw_amount_outcome(this, id, b.streams[id], amount, now) {
                Ok((_, effects)) => apply_effects(b, this, effects),
                Err(_) => b,
            }
        },
        Operation::Cancel { id, now } => if !b.streams.contains_key(id) {
            b
        } else {
            match cancel_outcome(this, id, b.streams[id], now) {
                Ok((_, effects)) => apply_effects(b, this, effects),
                Err(_) => b,
            }
        },
    }
}

/// The book of the contract at `this` after a fresh deployment and then the
/// calls `ops`, in order. Views change nothing and do not appear.
pub open spec fn run(this: Address, ops: Seq<Operation>) -> Book
    decreases ops.len(),
{
    if ops.len() == 0 {
        fresh_book()
    } else {
        step(run(this, ops.drop_last()), this, ops.last())
    }
}

/// One call keeps the invariant.
pub proof fn lemma_step_keeps_book(b: Book, this: Address, op: Operation)
    requires
        book_invariant(b, this),
    ensures
        book_invariant(step(b, this, op), this),
{
    match op {
        Operation::Create {
            sender,
            recipient,
            token,
            total_amount,
            start_time,
            end_time,
            cliff_time,
            now,
            found_distinct,
        } => {
            let distinct = found_distinct && !participants_coincide(this, sender, recipient, token);
            if let Ok((id, next)) = creation_outcome(
                distinct,
                total_amount,
                start_time,
                end_time,
                cliff_time,
                now,
                b.count,
            ) {
                lemma_create_keeps_book(
                    b,
                    this,
                    sender,
                    recipient,
                    token,
                    total_amount,
                    start_time,
                    end_time,
                    cliff_time,
                    now,
                    id,
                );
            }
        },
        Operation::Withdraw { id, now } => {
            if b.streams.contains_key(id) {
                lemma_withdraw_keeps_book(b, this, id, now);
            }
        },
        Operation::WithdrawAmount { id, amount, now } => {
            if b.streams.contains_key(id) {
                lemma_withdraw_amount_keeps_book(b, this, id, amount, now);
            }
        },
        Operation::Cancel { id, now } => {
            if b.streams.contains_key(id) {
                lemma_cancel_keeps_book(b, this, id, now);
            }
        },
    }
}

/// Every book reachable from a fresh deployment through the entry points
/// satisfies the invariant: the stored ids are exactly `0..count`, none reused
/// or removed; every stored stream is well formed, has its schedule in order
/// and neither participant is the contract; and for every token the contract's
/// balance equals what its streams in that token still hold. In particular a
/// cancelled stream keeps `start_time <= cliff_time <= end_time`.
pub proof fn lemma_reachable_books_keep_the_invariant(this: Address, ops: Seq<Operation>)
    ensures
        book_invariant(run(this, ops), this),
        forall|j: u64| #[trigger] run(this, ops).streams.contains_key(j) <==> j < run(this, ops).count,
        forall|k: Address| #[trigger] (run(this, ops).balance)(k) == held_below(
            run(this, ops).streams,
            k,
            run(this, ops).count as nat,
        ),
        forall|j: u64| #[trigger] run(this, ops).streams.contains_key(j) ==> run(this, ops).streams[j].schedule_ordered(),
    decreases ops.len(),
{
    if ops.len() == 0 {
        lemma_fresh_book(this);
    } else {
        lemma_reachable_books_keep_the_invariant(this, ops.drop_last());
        lemma_step_keeps_book(run(this, ops.drop_last()), this, ops.last());
    }
    assert forall|j: u64| #[trigger] run(this, ops).streams.contains_key(j) implies run(
        this,
        ops,
    ).streams[j].schedule_ordered() by {
        assert(stored_ok(run(this, ops).streams[j], this));
    }
}

/// In every reachable book, a stream cancelled at `now` stays frozen: its
/// schedule stays in order, its window ends at `now`, and at every later time
/// everything left in it has vested.
pub proof fn lemma_reachable_cancel_freezes(this: Address, ops: Seq<Operation>, id: u64, now: u64, later: u64)
    requires
        run(this, ops).streams.contains_key(id),
        cancel_spec(run(this, ops).streams[id], now).1 is Ok,
        now <= later,
    ensures
        ({
            let s2 = cancel_spec(run(this, ops).streams[id], now).0;
            &&& s2.schedule_ordered()
            &&& s2.end_time == now
            &&& s2.vested_at(later as int) == s2.total_amount
        }),
{
    lemma_reachable_books_keep_the_invariant(this, ops);
    assert(stored_ok(run(this, ops).streams[id], this));
    lemma_cancel_freezes_the_schedule(run(this, ops).streams[id], now, later);
}

} // verus!
