//! The stream contract's rules: what each entry point decides, given the stored
//! stream and the ledger clock, and the state it leaves behind.
//!
//! Reading and writing the ledger, checking authorization, moving tokens and
//! publishing events are the host's work; the functions here take what was read
//! and return what is to be written, transferred and announced.
use soroban_sdk::Address;
use vstd::prelude::*;

use crate::address::same_address;
use crate::effects::{outcome_view, Effect};
use crate::error::StreamError;
use crate::events::{cancelled_event, created_event, withdrawn_event, Cancelled, Created, Withdrawn};
use crate::status::{status_of, stream_status};
use crate::types::{Stream, StreamStatus};
use crate::vesting::{
    lemma_vested_within_total, lemma_vesting_product_fits, vested_amount, vesting_fits, withdrawable_amount,
};

verus! {

/// Maximum value accepted for `total_amount` at stream creation: `i64::MAX`.
///
/// The vesting arithmetic forms `total_amount * elapsed` with `elapsed` up to
/// `u64::MAX`; below this ceiling that product stays inside `i128`.
pub const MAX_AMOUNT: i128 = 9_223_372_036_854_775_807i128;

/// The stream contract.
pub struct StreamContract;

/// The ceiling is `i64::MAX`, and the vesting product of any amount up to it
/// with any elapsed time a `u64` clock can measure stays below `i128::MAX`.
pub proof fn lemma_amount_ceiling()
    ensures
        MAX_AMOUNT == i64::MAX,
        MAX_AMOUNT * u64::MAX < i128::MAX,
{
    assert(MAX_AMOUNT * u64::MAX < i128::MAX);
}

/// What a cancellation settles: the unvested part goes back to the sender, the
/// vested part not yet withdrawn stays claimable by the recipient.
#[derive(Copy, Clone, Debug, PartialEq, Eq, Structural)]
pub struct Cancellation {
    /// Unvested tokens refunded to the sender.
    pub sender_refund: i128,
    /// Vested tokens still claimable by the recipient.
    pub recipient_amount: i128,
}

/// Some two of the participants, or a participant and this contract, are the
/// same value.
pub open spec fn participants_coincide(this: Address, sender: Address, recipient: Address, token: Address) -> bool {
    ||| sender == recipient
    ||| token == sender
    ||| token == recipient
    ||| sender == this
    ||| recipient == this
    ||| token == this
}

/// The outcome of the creation rules, checked in order: participants, amount,
/// schedule, capacity. On success, the id to assign and the counter to store.
pub open spec fn creation_outcome(
    participants_distinct: bool,
    total_amount: i128,
    start_time: u64,
    end_time: u64,
    cliff_time: u64,
    now: u64,
    stream_count: u64,
) -> Result<(u64, u64), StreamError> {
    if !participants_distinct {
        Err(StreamError::InvalidParticipant)
    } else if total_amount <= 0 {
        Err(StreamError::InvalidAmount)
    } else if total_amount > MAX_AMOUNT {
        Err(StreamError::AmountTooLarge)
    } else if start_time >= end_time {
        Err(StreamError::InvalidTimeRange)
    } else if cliff_time < start_time || cliff_time > end_time {
        Err(StreamError::InvalidCliff)
    } else if end_time <= now {
        Err(StreamError::StreamWindowInPast)
    } else if stream_count == u64::MAX {
        Err(StreamError::StreamCountExhausted)
    } else {
        Ok((stream_count, (stream_count + 1) as u64))
    }
}

/// The stream a successful creation stores.
pub open spec fn opened_stream(
    sender: Address,
    recipient: Address,
    token: Address,
    total_amount: i128,
    start_time: u64,
    end_time: u64,
    cliff_time: u64,
) -> Stream {
    Stream {
        sender,
        recipient,
        token,
        total_amount,
        withdrawn: 0,
        start_time,
        end_time,
        cliff_time,
        cancelled: false,
    }
}

/// A full withdrawal at `now`: the stream left behind and the result.
pub open spec fn withdraw_spec(s: Stream, now: u64) -> (Stream, Result<i128, StreamError>) {
    let available = s.withdrawable_at(now as int);
    if available <= 0 {
        (s, Err(StreamError::NothingToWithdraw))
    } else {
        (Stream { withdrawn: (s.withdrawn + available) as i128, ..s }, Ok(available as i128))
    }
}

/// A partial withdrawal of `amount` at `now`: the stream left behind and the result.
pub open spec fn withdraw_amount_spec(s: Stream, amount: i128, now: u64) -> (Stream, Result<i128, StreamError>) {
    if amount <= 0 {
        (s, Err(StreamError::InvalidAmount))
    } else if amount > s.withdrawable_at(now as int) {
        (s, Err(StreamError::InsufficientBalance))
    } else {
        (Stream { withdrawn: (s.withdrawn + amount) as i128, ..s }, Ok(amount))
    }
}

/// The stream frozen at `now`: the total cut to what has vested, the window
/// closed at `now`.
pub open spec fn frozen_at(s: Stream, now: u64) -> Stream {
    Stream {
        total_amount: s.vested_at(now as int) as i128,
        start_time: if now < s.start_time { now } else { s.start_time },
        cliff_time: if now < s.cliff_time { now } else { s.cliff_time },
        end_time: now,
        cancelled: true,
        ..s
    }
}

/// A cancellation at `now`: the stream left behind and the result.
pub open spec fn cancel_spec(s: Stream, now: u64) -> (Stream, Result<Cancellation, StreamError>) {
    if s.cancelled {
        (s, Err(StreamError::AlreadyCancelled))
    } else if now >= s.end_time {
        (s, Err(StreamError::StreamAlreadyCompleted))
    } else {
        let vested = s.vested_at(now as int);
        (
            frozen_at(s, now),
            Ok(
                Cancellation {
                    sender_refund: (s.total_amount - vested) as i128,
                    recipient_amount: (vested - s.withdrawn) as i128,
                },
            ),
        )
    }
}

/// Amount not yet vested at `now`.
pub open spec fn locked_spec(s: Stream, now: u64) -> int {
    s.total_amount - s.vested_at(now as int)
}

/// Vesting progress at `now` in basis points.
pub open spec fn progress_spec(s: Stream, now: u64) -> int {
    if s.total_amount == 0 {
        10_000
    } else {
        let p = (s.vested_at(now as int) * 10_000) / (s.total_amount as int);
        if p < 0 {
            0
        } else if p > 10_000 {
            10_000
        } else {
            p
        }
    }
}

/// The stored stream, or `StreamNotFound` where there is none.
pub open spec fn found<T>(stored: Option<T>) -> Result<T, StreamError> {
    match stored {
        Some(s) => Ok(s),
        None => Err(StreamError::StreamNotFound),
    }
}

/// On a well-formed stream the vesting arithmetic fits at every instant, and
/// the vested amount lies in `[0, total_amount]`.
pub proof fn lemma_well_formed_vesting_fits(s: Stream, now: u64)
    requires
        s.well_formed(),
    ensures
        vesting_fits(s.total_amount as int, s.start_time as int, s.end_time as int, s.cliff_time as int, now as int),
        0 <= s.vested_at(now as int) <= s.total_amount,
{
    if s.start_time <= now {
        lemma_vesting_product_fits(s.total_amount as int, now - s.start_time);
    }
    lemma_vested_within_total(s.total_amount as int, s.start_time as int, s.end_time as int, s.cliff_time as int, now as int);
}

/// Check the creation rules on plain values, given whether the participants
/// were found distinct.
///
/// The rules run in a fixed order and the first that fails decides the error:
/// participants, then amount (`InvalidAmount`, `AmountTooLarge`), then schedule
/// (`InvalidTimeRange`, `InvalidCliff`, `StreamWindowInPast`), then capacity
/// (`StreamCountExhausted`). On success returns the id for the new stream and
/// the counter value to store.
pub fn check_stream_creation(
    participants_distinct: bool,
    total_amount: i128,
    start_time: u64,
    end_time: u64,
    cliff_time: u64,
    now: u64,
    stream_count: u64,
) -> (r: Result<(u64, u64), StreamError>)
    ensures
        r == creation_outcome(participants_distinct, total_amount, start_time, end_time, cliff_time, now, stream_count),
{
    if !participants_distinct {
        return Err(StreamError::InvalidParticipant);
    }
    if total_amount <= 0 {
        return Err(StreamError::InvalidAmount);
    }
    if total_amount > MAX_AMOUNT {
        return Err(StreamError::AmountTooLarge);
    }
    if start_time >= end_time {
        return Err(StreamError::InvalidTimeRange);
    }
    if cliff_time < start_time || cliff_time > end_time {
        return Err(StreamError::InvalidCliff);
    }
    if end_time <= now {
        return Err(StreamError::StreamWindowInPast);
    }
    match stream_count.checked_add(1) {
        Some(next_id) => Ok((stream_count, next_id)),
        None => Err(StreamError::StreamCountExhausted),
    }
}

/// Check every rule `create_stream` enforces, before any token moves and
/// before any storage is written.
///
/// `this` is the contract's own address, `now` the ledger time and
/// `stream_count` the stored counter. A sender equal to the recipient, a token
/// equal to either participant, or this contract in any role is refused with
/// `InvalidParticipant`; the remaining rules are those of
/// [`check_stream_creation`].
pub fn validate_stream_creation(
    this: &Address,
    sender: &Address,
    recipient: &Address,
    token: &Address,
    total_amount: i128,
    start_time: u64,
    end_time: u64,
    cliff_time: u64,
    now: u64,
    stream_count: u64,
) -> (r: Result<(u64, u64), StreamError>)
    ensures
        r == creation_outcome(false, total_amount, start_time, end_time, cliff_time, now, stream_count)
            || r == creation_outcome(true, total_amount, start_time, end_time, cliff_time, now, stream_count),
        participants_coincide(*this, *sender, *recipient, *token) ==> r == Err::<(u64, u64), StreamError>(
            StreamError::InvalidParticipant,
        ),
{
    let coincide = same_address(sender, recipient) || same_address(token, sender) || same_address(
        token,
        recipient,
    ) || same_address(sender, this) || same_address(recipient, this) || same_address(token, this);
    check_stream_creation(!coincide, total_amount, start_time, end_time, cliff_time, now, stream_count)
}

/// What a successful creation asks the host to do: pull the deposit from the
/// sender, store the stream and the advanced counter, refresh the instance,
/// then announce the stream.
pub open spec fn creation_effects(this: Address, id: u64, next_count: u64, s: Stream) -> Seq<Effect> {
    seq![
        Effect::Transfer { token: s.token, from: s.sender, to: this, amount: s.total_amount },
        Effect::SetStream { id, stream: s },
        Effect::SetStreamCount { count: next_count },
        Effect::ExtendInstanceTtl,
        Effect::PublishCreated { event: created_event(id, s) },
    ]
}

/// What a successful withdrawal of `amount` asks the host to do: store the
/// updated stream, pay the recipient, then announce the payment.
pub open spec fn withdrawal_effects(this: Address, id: u64, s: Stream, amount: i128) -> Seq<Effect> {
    seq![
        Effect::SetStream { id, stream: s },
        Effect::Transfer { token: s.token, from: this, to: s.recipient, amount },
        Effect::PublishWithdrawn { event: withdrawn_event(id, s, amount) },
    ]
}

/// What a successful cancellation asks the host to do: store the frozen
/// stream, refund the sender when there is anything to refund, then announce
/// the split.
pub open spec fn cancellation_effects(this: Address, id: u64, s: Stream, settled: Cancellation) -> Seq<Effect> {
    let refund = if settled.sender_refund > 0 {
        seq![Effect::Transfer { token: s.token, from: this, to: s.sender, amount: settled.sender_refund }]
    } else {
        Seq::<Effect>::empty()
    };
    seq![Effect::SetStream { id, stream: s }] + refund + seq![
        Effect::PublishCancelled { event: cancelled_event(id, s, settled) },
    ]
}

/// The outcome of a full withdrawal from stream `id`: the amount paid and the
/// effects, or the error.
pub open spec fn withdraw_outcome(this: Address, id: u64, s: Stream, now: u64) -> Result<(i128, Seq<Effect>), StreamError> {
    match withdraw_spec(s, now) {
        (after, Ok(amount)) => Ok((amount, withdrawal_effects(this, id, after, amount))),
        (_, Err(e)) => Err(e),
    }
}

/// The outcome of a partial withdrawal of `amount` from stream `id`.
pub open spec fn withdraw_amount_outcome(this: Address, id: u64, s: Stream, amount: i128, now: u64) -> Result<
    (i128, Seq<Effect>),
    StreamError,
> {
    match withdraw_amount_spec(s, amount, now) {
        (after, Ok(paid)) => Ok((paid, withdrawal_effects(this, id, after, paid))),
        (_, Err(e)) => Err(e),
    }
}

/// The outcome of cancelling stream `id`: the sender's refund and the effects.
pub open spec fn cancel_outcome(this: Address, id: u64, s: Stream, now: u64) -> Result<(i128, Seq<Effect>), StreamError> {
    match cancel_spec(s, now) {
        (after, Ok(settled)) => Ok((settled.sender_refund, cancellation_effects(this, id, after, settled))),
        (_, Err(e)) => Err(e),
    }
}

impl Stream {
    /// Take everything that has vested but not yet been withdrawn.
    ///
    /// Fails with `NothingToWithdraw`, leaving the stream unchanged, when the
    /// withdrawable balance at `now` is not positive; otherwise records the
    /// whole balance as withdrawn and returns it.
    pub fn withdraw(&mut self, now: u64) -> (r: Result<i128, StreamError>)
        requires
            old(self).well_formed(),
        ensures
            (*final(self), r) == withdraw_spec(*old(self), now),
            final(self).well_formed(),
    {
        proof {
            lemma_well_formed_vesting_fits(*self, now);
        }
        let vested = vested_amount(self.total_amount, self.start_time, self.end_time, self.cliff_time, now);
        let available = withdrawable_amount(vested, self.withdrawn);
        if available <= 0 {
            return Err(StreamError::NothingToWithdraw);
        }
        self.withdrawn = self.withdrawn + available;
        Ok(available)
    }

    /// Take `amount`, up to what is withdrawable at `now`.
    ///
    /// Fails with `InvalidAmount` when `amount` is not positive and with
    /// `InsufficientBalance` when it exceeds the withdrawable balance, leaving
    /// the stream unchanged; otherwise records `amount` as withdrawn.
    pub fn withdraw_amount(&mut self, amount: i128, now: u64) -> (r: Result<i128, StreamError>)
        requires
            old(self).well_formed(),
        ensures
            (*final(self), r) == withdraw_amount_spec(*old(self), amount, now),
            final(self).well_formed(),
    {
        if amount <= 0 {
            return Err(StreamError::InvalidAmount);
        }
        proof {
            lemma_well_formed_vesting_fits(*self, now);
        }
        let vested = vested_amount(self.total_amount, self.start_time, self.end_time, self.cliff_time, now);
        let available = withdrawable_amount(vested, self.withdrawn);
        if amount > available {
            return Err(StreamError::InsufficientBalance);
        }
        self.withdrawn = self.withdrawn + amount;
        Ok(amount)
    }

    /// Cancel at `now`.
    ///
    /// Fails with `AlreadyCancelled` for a cancelled stream and with
    /// `StreamAlreadyCompleted` once `now >= end_time`, leaving the stream
    /// unchanged. Otherwise freezes the stream at the amount vested at `now`
    /// (its window closes at `now`, so nothing more vests) and returns the
    /// unvested refund for the sender with the recipient's remaining claim.
    pub fn cancel(&mut self, now: u64) -> (r: Result<Cancellation, StreamError>)
        requires
            old(self).well_formed(),
        ensures
            (*final(self), r) == cancel_spec(*old(self), now),
            final(self).well_formed(),
    {
        if self.cancelled {
            return Err(StreamError::AlreadyCancelled);
        }
        if now >= self.end_time {
            return Err(StreamError::StreamAlreadyCompleted);
        }
        proof {
            lemma_well_formed_vesting_fits(*self, now);
        }
        let vested = vested_amount(self.total_amount, self.start_time, self.end_time, self.cliff_time, now);
        let refund = self.total_amount - vested;
        let recipient_remaining = vested - self.withdrawn;
        self.total_amount = vested;
        if now < self.start_time {
            self.start_time = now;
        }
        if now < self.cliff_time {
            self.cliff_time = now;
        }
        self.end_time = now;
        self.cancelled = true;
        Ok(Cancellation { sender_refund: refund, recipient_amount: recipient_remaining })
    }
}

impl StreamContract {
    /// Open a new stream from `sender` to `recipient`.
    ///
    /// `this` is the contract's own address, `now` the ledger time and
    /// `stream_count` the stored id counter. Runs the creation rules of
    /// [`validate_stream_creation`]; on success returns the id assigned to the
    /// stream and the effects that pull the deposit, store the stream and the
    /// advanced counter, and announce the stream. A refused call has no effect.
    pub fn create_stream(
        this: &Address,
        sender: Address,
        recipient: Address,
        token: Address,
        total_amount: i128,
        start_time: u64,
        end_time: u64,
        cliff_time: u64,
        now: u64,
        stream_count: u64,
    ) -> (r: Result<(u64, Vec<Effect>), StreamError>)
        ensures
            match r {
                Ok((id, effects)) => {
                    &&& creation_outcome(true, total_amount, start_time, end_time, cliff_time, now, stream_count)
                        == Ok::<(u64, u64), StreamError>((id, (id + 1) as u64))
                    &&& !participants_coincide(*this, sender, recipient, token)
                    &&& effects@ == creation_effects(
                        *this,
                        id,
                        (id + 1) as u64,
                        opened_stream(sender, recipient, token, total_amount, start_time, end_time, cliff_time),
                    )
                },
                Err(e) => {
                    ||| creation_outcome(false, total_amount, start_time, end_time, cliff_time, now, stream_count)
                        == Err::<(u64, u64), StreamError>(e)
                    ||| creation_outcome(true, total_amount, start_time, end_time, cliff_time, now, stream_count)
                        == Err::<(u64, u64), StreamError>(e)
                },
            },
            participants_coincide(*this, sender, recipient, token) ==> r matches Err(
                StreamError::InvalidParticipant,
            ),
    {
        let (id, next_count) = validate_stream_creation(
            this,
            &sender,
            &recipient,
            &token,
            total_amount,
            start_time,
            end_time,
            cliff_time,
            now,
            stream_count,
        )?;
        let stream = Stream {
            sender,
            recipient,
            token,
            total_amount,
            withdrawn: 0,
            start_time,
            end_time,
            cliff_time,
            cancelled: false,
        };
        let event = Created::for_stream(id, &stream);
        let mut effects: Vec<Effect> = Vec::new();
        effects.push(
            Effect::Transfer {
                token: stream.token.clone(),
                from: stream.sender.clone(),
                to: this.clone(),
                amount: total_amount,
            },
        );
        effects.push(Effect::SetStream { id, stream });
        effects.push(Effect::SetStreamCount { count: next_count });
        effects.push(Effect::ExtendInstanceTtl);
        effects.push(Effect::PublishCreated { event });
        Ok((id, effects))
    }

    /// Withdraw everything that has vested but not yet been taken from stream
    /// `id` at `now`: returns the amount and the effects that store the
    /// updated stream, pay the recipient and announce it.
    pub fn withdraw(this: &Address, id: u64, stream: Stream, now: u64) -> (r: Result<(i128, Vec<Effect>), StreamError>)
        requires
            stream.well_formed(),
        ensures
            outcome_view(r) == withdraw_outcome(*this, id, stream, now),
    {
        let mut stream = stream;
        let amount = stream.withdraw(now)?;
        Ok((amount, Self::withdrawal(this, id, stream, amount)))
    }

    /// Withdraw `amount`, up to what is withdrawable from stream `id` at `now`:
    /// returns the amount and the effects that store the updated stream, pay
    /// the recipient and announce it.
    pub fn withdraw_amount(this: &Address, id: u64, stream: Stream, amount: i128, now: u64) -> (r: Result<
        (i128, Vec<Effect>),
        StreamError,
    >)
        requires
            stream.well_formed(),
        ensures
            outcome_view(r) == withdraw_amount_outcome(*this, id, stream, amount, now),
    {
        let mut stream = stream;
        let paid = stream.withdraw_amount(amount, now)?;
        Ok((paid, Self::withdrawal(this, id, stream, paid)))
    }

    /// The effects of paying `amount` from stream `id`, already updated, to
    /// its recipient.
    fn withdrawal(this: &Address, id: u64, stream: Stream, amount: i128) -> (effects: Vec<Effect>)
        ensures
            effects@ == withdrawal_effects(*this, id, stream, amount),
    {
        let event = Withdrawn::for_stream(id, &stream, amount);
        let token = stream.token.clone();
        let recipient = stream.recipient.clone();
        let mut effects: Vec<Effect> = Vec::new();
        effects.push(Effect::SetStream { id, stream });
        effects.push(Effect::Transfer { token, from: this.clone(), to: recipient, amount });
        effects.push(Effect::PublishWithdrawn { event });
        effects
    }

    /// Cancel stream `id` at `now`: returns the sender's refund and the effects
    /// that store the frozen stream, refund the sender when there is anything
    /// to refund, and announce both sides of the split.
    pub fn cancel(this: &Address, id: u64, stream: Stream, now: u64) -> (r: Result<(i128, Vec<Effect>), StreamError>)
        requires
            stream.well_formed(),
        ensures
            outcome_view(r) == cancel_outcome(*this, id, stream, now),
    {
        let mut stream = stream;
        let settled = stream.cancel(now)?;
        let event = Cancelled::for_stream(id, &stream, settled);
        let token = stream.token.clone();
        let sender = stream.sender.clone();
        let mut effects: Vec<Effect> = Vec::new();
        effects.push(Effect::SetStream { id, stream });
        if settled.sender_refund > 0 {
            effects.push(Effect::Transfer { token, from: this.clone(), to: sender, amount: settled.sender_refund });
        }
        effects.push(Effect::PublishCancelled { event });
        proof {
            assert(effects@ =~= cancellation_effects(*this, id, stream, settled));
        }
        Ok((settled.sender_refund, effects))
    }

    /// The stored stream, or `StreamNotFound` where nothing is stored.
    pub fn get_stream(stored: Option<Stream>) -> (r: Result<Stream, StreamError>)
        ensures
            r == found(stored),
    {
        match stored {
            Some(stream) => Ok(stream),
            None => Err(StreamError::StreamNotFound),
        }
    }

    /// Amount the recipient can withdraw at `now`.
    pub fn withdrawable(stored: Option<&Stream>, now: u64) -> (r: Result<i128, StreamError>)
        requires
            stored matches Some(s) ==> s.well_formed(),
        ensures
            match stored {
                Some(s) => r == Ok::<i128, StreamError>(s.withdrawable_at(now as int) as i128),
                None => r == Err::<i128, StreamError>(StreamError::StreamNotFound),
            },
    {
        match stored {
            Some(stream) => {
                proof {
                    lemma_well_formed_vesting_fits(*stream, now);
                }
                let vested = vested_amount(
                    stream.total_amount,
                    stream.start_time,
                    stream.end_time,
                    stream.cliff_time,
                    now,
                );
                Ok(withdrawable_amount(vested, stream.withdrawn))
            },
            None => Err(StreamError::StreamNotFound),
        }
    }

    /// Total amount vested at `now`, including anything already withdrawn.
    pub fn vested(stored: Option<&Stream>, now: u64) -> (r: Result<i128, StreamError>)
        requires
            stored matches Some(s) ==> s.well_formed(),
        ensures
            match stored {
                Some(s) => r == Ok::<i128, StreamError>(s.vested_at(now as int) as i128),
                None => r == Err::<i128, StreamError>(StreamError::StreamNotFound),
            },
    {
        match stored {
            Some(stream) => {
                proof {
                    lemma_well_formed_vesting_fits(*stream, now);
                }
                Ok(
                    vested_amount(
                        stream.total_amount,
                        stream.start_time,
                        stream.end_time,
                        stream.cliff_time,
                        now,
                    ),
                )
            },
            None => Err(StreamError::StreamNotFound),
        }
    }

    /// Amount not yet vested at `now`: `total_amount - vested`.
    pub fn locked(stored: Option<&Stream>, now: u64) -> (r: Result<i128, StreamError>)
        requires
            stored matches Some(s) ==> s.well_formed(),
        ensures
            match stored {
                Some(s) => r == Ok::<i128, StreamError>(locked_spec(*s, now) as i128),
                None => r == Err::<i128, StreamError>(StreamError::StreamNotFound),
            },
    {
        match stored {
            Some(stream) => {
                proof {
                    lemma_well_formed_vesting_fits(*stream, now);
                }
                let vested = vested_amount(
                    stream.total_amount,
                    stream.start_time,
                    stream.end_time,
                    stream.cliff_time,
                    now,
                );
                Ok(stream.total_amount - vested)
            },
            None => Err(StreamError::StreamNotFound),
        }
    }

    /// Vesting progress at `now` in basis points, from 0 to 10000; a stream
    /// with a zero total reports 10000.
    pub fn progress(stored: Option<&Stream>, now: u64) -> (r: Result<u32, StreamError>)
        requires
            stored matches Some(s) ==> s.well_formed(),
        ensures
            match stored {
                Some(s) => r == Ok::<u32, StreamError>(progress_spec(*s, now) as u32),
                None => r == Err::<u32, StreamError>(StreamError::StreamNotFound),
            },
            r matches Ok(p) ==> p <= 10_000,
    {
        match stored {
            Some(stream) => {
                if stream.total_amount == 0 {
                    return Ok(10_000);
                }
                proof {
                    lemma_well_formed_vesting_fits(*stream, now);
                    assert(0 <= stream.vested_at(now as int) * 10_000 <= MAX_AMOUNT * 10_000) by (nonlinear_arith)
                        requires
                            0 <= stream.vested_at(now as int) <= MAX_AMOUNT,
                    ;
                }
                let vested = vested_amount(
                    stream.total_amount,
                    stream.start_time,
                    stream.end_time,
                    stream.cliff_time,
                    now,
                );
                let progress = vested * 10_000 / stream.total_amount;
                let clamped = if progress < 0 {
                    0
                } else if progress > 10_000 {
                    10_000
                } else {
                    progress
                };
                Ok(clamped as u32)
            },
            None => Err(StreamError::StreamNotFound),
        }
    }

    /// Lifecycle status at `now`.
    pub fn status(stored: Option<&Stream>, now: u64) -> (r: Result<StreamStatus, StreamError>)
        ensures
            match stored {
                Some(s) => r == Ok::<StreamStatus, StreamError>(status_of(*s, now)),
                None => r == Err::<StreamStatus, StreamError>(StreamError::StreamNotFound),
            },
    {
        match stored {
            Some(stream) => Ok(stream_status(stream, now)),
            None => Err(StreamError::StreamNotFound),
        }
    }
}

} // verus!
