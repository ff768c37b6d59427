//! Properties that hold across the contract's operations.
use soroban_sdk::Address;
use vstd::arithmetic::div_mod::{lemma_div_by_multiple, lemma_div_pos_is_pos, lemma_fundamental_div_mod};
use vstd::prelude::*;

use crate::contract::{
    cancel_outcome, cancel_spec, creation_effects, creation_outcome, frozen_at, lemma_well_formed_vesting_fits, locked_spec,
    opened_stream, progress_spec, withdraw_amount_outcome, withdraw_amount_spec, withdraw_outcome, withdraw_spec,
    Cancellation, MAX_AMOUNT,
};
use crate::effects::Effect;
use crate::error::StreamError;
use crate::status::status_of;
use crate::types::{Stream, StreamStatus};
use crate::events::Created;
use crate::vesting::{lemma_vested_monotonic, vested_spec};

verus! {

/// Tokens the contract still holds for a stream: what was put in and not yet
/// paid out to the recipient or refunded to the sender.
pub open spec fn held(s: Stream) -> int {
    s.total_amount - s.withdrawn
}

/// A stream consistent at one instant stays consistent at every later one:
/// vesting only grows, so the recipient never holds more than has vested.
pub proof fn lemma_consistency_persists(s: Stream, earlier: u64, later: u64)
    requires
        s.consistent_at(earlier as int),
        earlier <= later,
    ensures
        s.consistent_at(later as int),
{
    lemma_vested_monotonic(
        s.total_amount as int,
        s.start_time as int,
        s.end_time as int,
        s.cliff_time as int,
        earlier as int,
        later as int,
    );
}

/// A stream frozen at `now` has vested its whole (cut) total from `now` on.
pub proof fn lemma_frozen_stream_vests_its_total(s: Stream, now: u64, later: u64)
    requires
        s.well_formed(),
        now <= later,
    ensures
        frozen_at(s, now).vested_at(later as int) == frozen_at(s, now).total_amount,
        frozen_at(s, now).total_amount == s.vested_at(now as int),
        frozen_at(s, now).well_formed(),
{
    lemma_well_formed_vesting_fits(s, now);
}

/// Every operation keeps a consistent stream consistent, whether it succeeds
/// or is refused.
pub proof fn lemma_operations_keep_consistency(s: Stream, amount: i128, now: u64)
    requires
        s.consistent_at(now as int),
    ensures
        withdraw_spec(s, now).0.consistent_at(now as int),
        withdraw_amount_spec(s, amount, now).0.consistent_at(now as int),
        cancel_spec(s, now).0.consistent_at(now as int),
{
    lemma_well_formed_vesting_fits(s, now);
    lemma_frozen_stream_vests_its_total(s, now, now);
}

/// The withdrawn amount never decreases, under any operation.
pub proof fn lemma_withdrawn_never_decreases(s: Stream, amount: i128, now: u64)
    requires
        s.well_formed(),
    ensures
        withdraw_spec(s, now).0.withdrawn >= s.withdrawn,
        withdraw_amount_spec(s, amount, now).0.withdrawn >= s.withdrawn,
        cancel_spec(s, now).0.withdrawn == s.withdrawn,
{
    lemma_well_formed_vesting_fits(s, now);
}

/// Every payout is backed: what the contract holds for a stream drops by
/// exactly what each operation pays out, and never goes negative on a
/// consistent stream. After a cancellation it holds exactly the recipient's
/// remaining claim.
pub proof fn lemma_payouts_are_backed(s: Stream, amount: i128, now: u64)
    requires
        s.consistent_at(now as int),
    ensures
        0 <= held(s),
        withdraw_spec(s, now).1 matches Ok(paid) ==> held(withdraw_spec(s, now).0) == held(s) - paid && 0 <= held(
            withdraw_spec(s, now).0,
        ),
        withdraw_amount_spec(s, amount, now).1 matches Ok(paid) ==> held(withdraw_amount_spec(s, amount, now).0)
            == held(s) - paid && 0 <= held(withdraw_amount_spec(s, amount, now).0),
        cancel_spec(s, now).1 matches Ok(c) ==> held(cancel_spec(s, now).0) == held(s) - c.sender_refund
            && held(cancel_spec(s, now).0) == c.recipient_amount && 0 <= c.recipient_amount,
{
    lemma_well_formed_vesting_fits(s, now);
    lemma_operations_keep_consistency(s, amount, now);
}

/// Cancellation splits the total: the sender gets back exactly the unvested
/// part, the recipient keeps the vested part, and what the recipient already
/// withdrew is not refunded.
pub proof fn lemma_cancel_splits_the_total(s: Stream, now: u64)
    requires
        s.well_formed(),
    ensures
        cancel_spec(s, now).1 matches Ok(c) ==> {
            &&& c.sender_refund == locked_spec(s, now)
            &&& c.sender_refund + c.recipient_amount + s.withdrawn == s.total_amount
            &&& 0 <= c.sender_refund <= s.total_amount
        },
{
    lemma_well_formed_vesting_fits(s, now);
}

/// A cancelled stream is frozen: from the cancellation on, it reports its cut
/// total as vested, nothing locked, full progress and the `Cancelled` status.
pub proof fn lemma_cancelled_stream_is_frozen(s: Stream, now: u64, later: u64)
    requires
        s.well_formed(),
        cancel_spec(s, now).1 is Ok,
        now <= later,
    ensures
        cancel_spec(s, now).0.vested_at(later as int) == s.vested_at(now as int),
        locked_spec(cancel_spec(s, now).0, later) == 0,
        progress_spec(cancel_spec(s, now).0, later) == 10_000,
        status_of(cancel_spec(s, now).0, later) == StreamStatus::Cancelled,
{
    lemma_frozen_stream_vests_its_total(s, now, later);
    let f = cancel_spec(s, now).0;
    if f.total_amount != 0 {
        lemma_div_by_multiple(10_000, f.total_amount as int);
        assert(f.total_amount * 10_000 == 10_000 * f.total_amount) by (nonlinear_arith);
    }
}

/// A stream can be cancelled only once.
pub proof fn lemma_cancel_only_once(s: Stream, now: u64, later: u64)
    requires
        cancel_spec(s, now).1 is Ok,
    ensures
        cancel_spec(cancel_spec(s, now).0, later) == (
        cancel_spec(s, now).0,
        Err::<Cancellation, StreamError>(StreamError::AlreadyCancelled),
        ),
{
}

/// Cancellation is not retroactive: after it, the recipient can still withdraw
/// exactly the vested amount it had not taken, at any later time.
pub proof fn lemma_cancel_then_withdraw(s: Stream, now: u64, later: u64)
    requires
        s.consistent_at(now as int),
        cancel_spec(s, now).1 is Ok,
        now <= later,
    ensures
        ({
            let c = cancel_spec(s, now).1->Ok_0;
            withdraw_spec(cancel_spec(s, now).0, later).1 == if c.recipient_amount > 0 {
                Ok::<i128, StreamError>(c.recipient_amount)
            } else {
                Err::<i128, StreamError>(StreamError::NothingToWithdraw)
            }
        }),
{
    lemma_frozen_stream_vests_its_total(s, now, later);
}

/// A full withdrawal drains the balance: right after it nothing is
/// withdrawable, and a second full withdrawal at the same instant is refused
/// without changing the stream.
pub proof fn lemma_withdraw_drains(s: Stream, now: u64)
    requires
        s.well_formed(),
    ensures
        withdraw_spec(s, now).0.withdrawable_at(now as int) == 0,
        withdraw_spec(withdraw_spec(s, now).0, now) == (
        withdraw_spec(s, now).0,
        Err::<i128, StreamError>(StreamError::NothingToWithdraw),
        ),
{
    lemma_well_formed_vesting_fits(s, now);
}

/// Partial withdrawals leave the rest in the stream: taking `amount` lowers the
/// withdrawable balance by exactly `amount`, and sweeping afterwards ends in the
/// same state, having paid the same total, as one sweep would have.
pub proof fn lemma_partial_then_full_withdrawal(s: Stream, amount: i128, now: u64)
    requires
        s.well_formed(),
        0 < amount <= s.withdrawable_at(now as int),
    ensures
        withdraw_amount_spec(s, amount, now).1 == Ok::<i128, StreamError>(amount),
        withdraw_amount_spec(s, amount, now).0.withdrawable_at(now as int) == s.withdrawable_at(now as int) - amount,
        withdraw_spec(withdraw_amount_spec(s, amount, now).0, now).0 == withdraw_spec(s, now).0,
        withdraw_spec(s, now).1 == Ok::<i128, StreamError>(s.withdrawable_at(now as int) as i128),
        amount < s.withdrawable_at(now as int) ==> withdraw_spec(withdraw_amount_spec(s, amount, now).0, now).1
            == Ok::<i128, StreamError>((s.withdrawable_at(now as int) - amount) as i128),
        amount == s.withdrawable_at(now as int) ==> withdraw_spec(withdraw_amount_spec(s, amount, now).0, now).1
            == Err::<i128, StreamError>(StreamError::NothingToWithdraw),
{
    lemma_well_formed_vesting_fits(s, now);
}

/// The vested and locked views mirror each other and always sum to the total.
pub proof fn lemma_vested_and_locked_sum_to_total(s: Stream, now: u64)
    ensures
        s.vested_at(now as int) + locked_spec(s, now) == s.total_amount,
{
}

/// Progress lies in `[0, 10000]`, and reaches 10000 once the window has closed
/// for a stream whose cliff and start lie inside it.
pub proof fn lemma_progress_range(s: Stream, now: u64)
    requires
        s.well_formed(),
    ensures
        0 <= progress_spec(s, now) <= 10_000,
        s.start_time <= s.end_time && s.cliff_time <= s.end_time && s.end_time <= now ==> progress_spec(s, now)
            == 10_000,
{
    if s.total_amount != 0 {
        lemma_div_by_multiple(10_000, s.total_amount as int);
        assert(s.total_amount * 10_000 == 10_000 * s.total_amount) by (nonlinear_arith);
    }
}

/// An accepted creation assigns the current counter as the id and advances the
/// counter by one, so ids are handed out in order and never reused; the stream
/// it opens is consistent, has not completed, and fully vests at its end.
pub proof fn lemma_opened_stream(
    sender: Address,
    recipient: Address,
    token: Address,
    total_amount: i128,
    start_time: u64,
    end_time: u64,
    cliff_time: u64,
    now: u64,
    stream_count: u64,
)
    requires
        creation_outcome(true, total_amount, start_time, end_time, cliff_time, now, stream_count) is Ok,
    ensures
        ({
            let (id, next) = creation_outcome(true, total_amount, start_time, end_time, cliff_time, now, stream_count)->Ok_0;
            let s = opened_stream(sender, recipient, token, total_amount, start_time, end_time, cliff_time);
            &&& id == stream_count
            &&& next == stream_count + 1
            &&& s.consistent_at(now as int)
            &&& status_of(s, now) != StreamStatus::Completed
            &&& s.vested_at(end_time as int) == total_amount
            &&& 0 < total_amount <= MAX_AMOUNT
        }),
{
    let s = opened_stream(sender, recipient, token, total_amount, start_time, end_time, cliff_time);
    lemma_well_formed_vesting_fits(s, now);
}

/// A refused creation is refused for the first rule that fails: each error
/// comes with exactly the inputs on which it is returned.
pub proof fn lemma_creation_errors(
    distinct: bool,
    total_amount: i128,
    start_time: u64,
    end_time: u64,
    cliff_time: u64,
    now: u64,
    stream_count: u64,
)
    ensures
        ({
            let r = creation_outcome(distinct, total_amount, start_time, end_time, cliff_time, now, stream_count);
            &&& (r == Err::<(u64, u64), StreamError>(StreamError::InvalidParticipant)) == !distinct
            &&& (r == Err::<(u64, u64), StreamError>(StreamError::InvalidAmount)) == (distinct && total_amount <= 0)
            &&& (r == Err::<(u64, u64), StreamError>(StreamError::AmountTooLarge)) == (distinct && total_amount
                > MAX_AMOUNT)
            &&& (r == Err::<(u64, u64), StreamError>(StreamError::InvalidTimeRange)) == (distinct && 0
                < total_amount <= MAX_AMOUNT && start_time >= end_time)
            &&& (r == Err::<(u64, u64), StreamError>(StreamError::InvalidCliff)) == (distinct && 0 < total_amount
                <= MAX_AMOUNT && start_time < end_time && (cliff_time < start_time || cliff_time > end_time))
            &&& (r == Err::<(u64, u64), StreamError>(StreamError::StreamWindowInPast)) == (distinct && 0
                < total_amount <= MAX_AMOUNT && start_time < end_time && start_time <= cliff_time <= end_time
                && end_time <= now)
            &&& (r == Err::<(u64, u64), StreamError>(StreamError::StreamCountExhausted)) == (distinct && 0
                < total_amount <= MAX_AMOUNT && start_time < end_time && start_time <= cliff_time <= end_time
                && now < end_time && stream_count == u64::MAX)
            &&& r is Ok == (distinct && 0 < total_amount <= MAX_AMOUNT && start_time < end_time && start_time
                <= cliff_time <= end_time && now < end_time && stream_count < u64::MAX)
        }),
{
}

/// Every token movement an operation asks for is positive and leaves the
/// contract for the party the stream names: the recipient on a withdrawal, the
/// sender on a cancellation, each for exactly the amount the operation returns.
pub proof fn lemma_payouts_are_positive_and_addressed(this: Address, id: u64, s: Stream, amount: i128, now: u64)
    requires
        s.well_formed(),
    ensures
        withdraw_outcome(this, id, s, now) matches Ok((paid, effects)) ==> {
            &&& 0 < paid
            &&& effects[1] == Effect::Transfer { token: s.token, from: this, to: s.recipient, amount: paid }
        },
        withdraw_amount_outcome(this, id, s, amount, now) matches Ok((paid, effects)) ==> {
            &&& 0 < paid
            &&& paid == amount
            &&& effects[1] == Effect::Transfer { token: s.token, from: this, to: s.recipient, amount: paid }
        },
        cancel_outcome(this, id, s, now) matches Ok((refund, effects)) ==> {
            &&& 0 <= refund
            &&& (refund > 0 ==> effects[1] == Effect::Transfer { token: s.token, from: this, to: s.sender, amount: refund })
            &&& (refund == 0 ==> effects.len() == 2)
        },
{
    lemma_well_formed_vesting_fits(s, now);
}

/// The amount stream `s` has vested at `now`, by the linear schedule of its
/// own fields.
pub open spec fn scheduled(s: Stream, now: u64) -> int {
    vested_spec(s.total_amount as int, s.start_time as int, s.end_time as int, s.cliff_time as int, now as int)
}

/// Cancellation is refused only for a stream already cancelled or already at
/// its end. Any other well-formed stream, before its start as well as during
/// its window, is cancelled: the sender gets back everything not yet vested
/// (all of it before the start or the cliff), the recipient keeps the vested
/// part it has not withdrawn, and the stream is cut to what has vested with its
/// window closed at `now` (start and cliff moved back to `now` if they lay
/// after it), its parties and withdrawals untouched.
pub proof fn lemma_cancel_succeeds_before_the_end(s: Stream, now: u64)
    requires
        s.well_formed(),
    ensures
        s.cancelled ==> cancel_spec(s, now) == (s, Err::<Cancellation, StreamError>(StreamError::AlreadyCancelled)),
        !s.cancelled && now >= s.end_time ==> cancel_spec(s, now) == (
            s,
            Err::<Cancellation, StreamError>(StreamError::StreamAlreadyCompleted),
        ),
        !s.cancelled && now < s.end_time ==> {
            let v = scheduled(s, now);
            let f = cancel_spec(s, now).0;
            &&& cancel_spec(s, now).1 == Ok::<Cancellation, StreamError>(
                Cancellation {
                    sender_refund: (s.total_amount - v) as i128,
                    recipient_amount: (v - s.withdrawn) as i128,
                },
            )
            &&& f.total_amount == v
            &&& f.withdrawn == s.withdrawn
            &&& f.start_time == (if now < s.start_time { now } else { s.start_time })
            &&& f.cliff_time == (if now < s.cliff_time { now } else { s.cliff_time })
            &&& f.end_time == now
            &&& f.cancelled
            &&& f.sender == s.sender && f.recipient == s.recipient && f.token == s.token
            &&& (now < s.start_time || now < s.cliff_time) ==> {
                &&& cancel_spec(s, now).1->Ok_0.sender_refund == s.total_amount
                &&& f.total_amount == 0
            }
        },
{
    lemma_well_formed_vesting_fits(s, now);
}

/// A full withdrawal pays exactly what has vested beyond what was already
/// withdrawn, and records the stream as drawn down to what has vested; when
/// nothing is beyond, it is refused with `NothingToWithdraw` and the stream is
/// left as it was.
pub proof fn lemma_withdraw_pays_the_vested_excess(s: Stream, now: u64)
    requires
        s.well_formed(),
    ensures
        scheduled(s, now) > s.withdrawn ==> {
            &&& withdraw_spec(s, now).1 == Ok::<i128, StreamError>((scheduled(s, now) - s.withdrawn) as i128)
            &&& withdraw_spec(s, now).0 == (Stream { withdrawn: scheduled(s, now) as i128, ..s })
        },
        scheduled(s, now) <= s.withdrawn ==> withdraw_spec(s, now) == (
            s,
            Err::<i128, StreamError>(StreamError::NothingToWithdraw),
        ),
{
    lemma_well_formed_vesting_fits(s, now);
}

/// A partial withdrawal of a positive `amount` no larger than the vested excess
/// pays exactly `amount` and adds it to what was withdrawn; a non-positive
/// amount is refused with `InvalidAmount`, a larger one with
/// `InsufficientBalance`, and a refused call leaves the stream as it was.
pub proof fn lemma_withdraw_amount_pays_what_was_asked(s: Stream, amount: i128, now: u64)
    requires
        s.well_formed(),
    ensures
        amount <= 0 ==> withdraw_amount_spec(s, amount, now) == (
            s,
            Err::<i128, StreamError>(StreamError::InvalidAmount),
        ),
        0 < amount && amount > scheduled(s, now) - s.withdrawn ==> withdraw_amount_spec(s, amount, now) == (
            s,
            Err::<i128, StreamError>(StreamError::InsufficientBalance),
        ),
        0 < amount <= scheduled(s, now) - s.withdrawn ==> {
            &&& withdraw_amount_spec(s, amount, now).1 == Ok::<i128, StreamError>(amount)
            &&& withdraw_amount_spec(s, amount, now).0 == (Stream { withdrawn: (s.withdrawn + amount) as i128, ..s })
        },
{
    lemma_well_formed_vesting_fits(s, now);
}

/// Progress is the vested share of the total in basis points, rounded down:
/// `progress * total <= vested * 10000 < (progress + 1) * total`. So it is 0
/// whenever nothing has vested (before the start or the cliff) and 10000 once
/// everything has; a zero total reports 10000.
pub proof fn lemma_progress_is_the_vested_share(s: Stream, now: u64)
    requires
        s.well_formed(),
    ensures
        s.total_amount == 0 ==> progress_spec(s, now) == 10_000,
        s.total_amount > 0 ==> {
            &&& progress_spec(s, now) * s.total_amount <= scheduled(s, now) * 10_000
            &&& scheduled(s, now) * 10_000 < (progress_spec(s, now) + 1) * s.total_amount
        },
        s.total_amount > 0 && scheduled(s, now) == 0 ==> progress_spec(s, now) == 0,
        s.total_amount > 0 && scheduled(s, now) == s.total_amount ==> progress_spec(s, now) == 10_000,
{
    lemma_well_formed_vesting_fits(s, now);
    if s.total_amount > 0 {
        let t = s.total_amount as int;
        let x = scheduled(s, now) * 10_000;
        assert(0 <= x <= t * 10_000) by (nonlinear_arith)
            requires
                x == scheduled(s, now) * 10_000,
                0 <= scheduled(s, now) <= t,
        ;
        lemma_fundamental_div_mod(x, t);
        lemma_div_pos_is_pos(x, t);
        lemma_div_by_multiple(10_000, t);
        assert(t * 10_000 == 10_000 * t) by (nonlinear_arith);
        vstd::arithmetic::div_mod::lemma_div_is_ordered(x, t * 10_000, t);
        let q = x / t;
        assert(q * t == t * q && (q + 1) * t == t * q + t) by (nonlinear_arith);
        if scheduled(s, now) == s.total_amount {
            assert(x == 10_000 * t);
        }
    }
}

/// A stream that is not cancelled is `Pending` exactly before its start,
/// `Completed` exactly from its start once its end has come, and `Streaming`
/// exactly in between; a cancelled stream is `Cancelled` whatever the time.
pub proof fn lemma_status_follows_the_clock(s: Stream, now: u64)
    ensures
        s.cancelled ==> status_of(s, now) == StreamStatus::Cancelled,
        !s.cancelled ==> ((status_of(s, now) == StreamStatus::Pending) <==> now < s.start_time),
        !s.cancelled ==> ((status_of(s, now) == StreamStatus::Streaming) <==> (s.start_time <= now
            && now < s.end_time)),
        !s.cancelled ==> ((status_of(s, now) == StreamStatus::Completed) <==> (s.start_time <= now
            && s.end_time <= now)),
{
}

/// A successful creation stores exactly the stream it was given: the
/// participants, the amount and the whole schedule (cliff included) as passed,
/// nothing withdrawn and not cancelled, so at every time it vests by that very
/// schedule. Its effects pull exactly the deposit from the sender into the
/// contract, store the stream under the assigned id, advance the counter to the
/// next id, and announce the stream with the same fields.
pub proof fn lemma_creation_stores_what_it_was_given(
    this: Address,
    sender: Address,
    recipient: Address,
    token: Address,
    total_amount: i128,
    start_time: u64,
    end_time: u64,
    cliff_time: u64,
    id: u64,
    t: u64,
)
    ensures
        ({
            let s = opened_stream(sender, recipient, token, total_amount, start_time, end_time, cliff_time);
            let effects = creation_effects(this, id, (id + 1) as u64, s);
            &&& s.sender == sender && s.recipient == recipient && s.token == token
            &&& s.total_amount == total_amount && s.withdrawn == 0 && !s.cancelled
            &&& s.start_time == start_time && s.end_time == end_time && s.cliff_time == cliff_time
            &&& s.vested_at(t as int) == vested_spec(
                total_amount as int,
                start_time as int,
                end_time as int,
                cliff_time as int,
                t as int,
            )
            &&& effects.len() == 5
            &&& effects[0] == Effect::Transfer { token, from: sender, to: this, amount: total_amount }
            &&& effects[1] == Effect::SetStream { id, stream: s }
            &&& effects[2] == Effect::SetStreamCount { count: (id + 1) as u64 }
            &&& effects[4] == Effect::PublishCreated {
                event: Created {
                    sender,
                    recipient,
                    id,
                    token,
                    total_amount,
                    start_time,
                    end_time,
                    cliff_time,
                },
            }
        }),
{
}

/// The views read the stream by its own schedule: it has vested
/// `total * elapsed / duration` by its fields, the withdrawable part is what has
/// vested beyond what was withdrawn (never negative), and the locked part is
/// the rest of the total. A missing stream is reported as `StreamNotFound`.
pub proof fn lemma_views_read_the_schedule(s: Stream, now: u64)
    ensures
        s.vested_at(now as int) == scheduled(s, now),
        s.withdrawn <= scheduled(s, now) ==> s.withdrawable_at(now as int) == scheduled(s, now) - s.withdrawn,
        scheduled(s, now) <= s.withdrawn ==> s.withdrawable_at(now as int) == 0,
        locked_spec(s, now) == s.total_amount - scheduled(s, now),
        crate::contract::found(Some(s)) == Ok::<Stream, StreamError>(s),
        crate::contract::found(None::<Stream>) == Err::<Stream, StreamError>(StreamError::StreamNotFound),
{
}

/// A successful withdrawal first stores the stream with the payment recorded,
/// then moves exactly the payment from the contract to the recipient in the
/// stream's token, then announces it: recipient, stream id and amount.
pub proof fn lemma_withdrawal_effects_in_order(this: Address, id: u64, s: Stream, amount: i128, now: u64)
    requires
        s.well_formed(),
    ensures
        withdraw_outcome(this, id, s, now) matches Ok((paid, effects)) ==> {
            &&& effects.len() == 3
            &&& effects[0] == Effect::SetStream { id, stream: Stream { withdrawn: (s.withdrawn + paid) as i128, ..s } }
            &&& effects[1] == Effect::Transfer { token: s.token, from: this, to: s.recipient, amount: paid }
            &&& effects[2] == Effect::PublishWithdrawn {
                event: crate::events::Withdrawn { recipient: s.recipient, id, amount: paid },
            }
        },
        withdraw_amount_outcome(this, id, s, amount, now) matches Ok((paid, effects)) ==> {
            &&& effects.len() == 3
            &&& effects[0] == Effect::SetStream { id, stream: Stream { withdrawn: (s.withdrawn + paid) as i128, ..s } }
            &&& effects[1] == Effect::Transfer { token: s.token, from: this, to: s.recipient, amount: paid }
            &&& effects[2] == Effect::PublishWithdrawn {
                event: crate::events::Withdrawn { recipient: s.recipient, id, amount: paid },
            }
        },
{
    lemma_well_formed_vesting_fits(s, now);
}

/// A successful cancellation first stores the frozen stream, then refunds the
/// sender in the stream's token when the refund is positive, and last announces
/// the split: sender, stream id, the recipient's remaining claim and the refund.
pub proof fn lemma_cancellation_effects_in_order(this: Address, id: u64, s: Stream, now: u64)
    requires
        s.well_formed(),
    ensures
        cancel_outcome(this, id, s, now) matches Ok((refund, effects)) ==> {
            &&& effects[0] == Effect::SetStream { id, stream: cancel_spec(s, now).0 }
            &&& refund > 0 ==> effects.len() == 3 && effects[1] == Effect::Transfer {
                token: s.token,
                from: this,
                to: s.sender,
                amount: refund,
            }
            &&& refund <= 0 ==> effects.len() == 2
            &&& effects.last() == Effect::PublishCancelled {
                event: crate::events::Cancelled {
                    sender: s.sender,
                    id,
                    recipient_amount: (scheduled(s, now) - s.withdrawn) as i128,
                    sender_refund: refund,
                },
            }
        },
{
    lemma_well_formed_vesting_fits(s, now);
}

} // verus!
