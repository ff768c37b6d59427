//! Linear vesting arithmetic on plain numbers.
use vstd::arithmetic::div_mod::{lemma_div_by_multiple, lemma_div_is_ordered, lemma_div_pos_is_pos, lemma_fundamental_div_mod};
use vstd::arithmetic::mul::{lemma_mul_inequality, lemma_mul_nonnegative};
use vstd::prelude::*;

verus! {

/// The quotient of `a` by a positive `b`, rounded toward zero, which is how
/// integer division of `i128` rounds.
pub open spec fn quotient_toward_zero(a: int, b: int) -> int {
    if a >= 0 {
        a / b
    } else {
        -((-a) / b)
    }
}

/// Amount vested at `now` for `total` released linearly over `[start, end)`,
/// with nothing released before `cliff`.
pub open spec fn vested_spec(total: int, start: int, end: int, cliff: int, now: int) -> int {
    if now < cliff || now < start {
        0
    } else if now >= end {
        total
    } else {
        quotient_toward_zero(total * (now - start), end - start)
    }
}

/// The product `total * elapsed` that the linear branch forms stays inside `i128`.
pub open spec fn vesting_fits(total: int, start: int, end: int, cliff: int, now: int) -> bool {
    (cliff <= now && start <= now && now < end) ==> i128::MIN <= total * (now - start) <= i128::MAX
}

/// What the recipient may still take: vested minus withdrawn, never negative.
pub open spec fn withdrawable_spec(vested: int, withdrawn: int) -> int {
    if vested - withdrawn < 0 {
        0
    } else {
        vested - withdrawn
    }
}

/// Amount vested at `now` for a stream that runs linearly from `start_time`
/// to `end_time`, with nothing available before `cliff_time`.
pub fn vested_amount(
    total_amount: i128,
    start_time: u64,
    end_time: u64,
    cliff_time: u64,
    now: u64,
) -> (vested: i128)
    requires
        vesting_fits(total_amount as int, start_time as int, end_time as int, cliff_time as int, now as int),
    ensures
        vested == vested_spec(total_amount as int, start_time as int, end_time as int, cliff_time as int, now as int),
        0 <= total_amount ==> 0 <= vested <= total_amount,
{
    proof {
        if 0 <= total_amount {
            lemma_vested_within_total(total_amount as int, start_time as int, end_time as int, cliff_time as int, now as int);
        }
    }
    if now < cliff_time || now < start_time {
        return 0;
    }
    if now >= end_time {
        return total_amount;
    }
    let elapsed = (now - start_time) as i128;
    let duration = (end_time - start_time) as i128;
    total_amount * elapsed / duration
}

/// Amount the recipient can withdraw right now: whatever has vested minus
/// whatever has already been taken. Never negative.
pub fn withdrawable_amount(vested: i128, withdrawn: i128) -> (available: i128)
    requires
        i128::MIN <= vested - withdrawn <= i128::MAX,
    ensures
        available == withdrawable_spec(vested as int, withdrawn as int),
        0 <= available,
        0 <= withdrawn && 0 <= vested ==> available <= vested,
        withdrawn <= vested ==> available == vested - withdrawn,
        vested <= withdrawn ==> available == 0,
{
    let available = vested - withdrawn;
    if available < 0 {
        0
    } else {
        available
    }
}

/// A non-negative total vests within `[0, total]` at every instant.
pub proof fn lemma_vested_within_total(total: int, start: int, end: int, cliff: int, now: int)
    requires
        0 <= total,
    ensures
        0 <= vested_spec(total, start, end, cliff, now) <= total,
{
    if cliff <= now && start <= now && now < end {
        let elapsed = now - start;
        let duration = end - start;
        lemma_mul_nonnegative(total, elapsed);
        lemma_mul_inequality(elapsed, duration, total);
        assert(elapsed * total == total * elapsed && duration * total == total * duration) by (nonlinear_arith);
        lemma_div_is_ordered(total * elapsed, total * duration, duration);
        lemma_div_by_multiple(total, duration);
        assert(total * duration == duration * total) by (nonlinear_arith);
        lemma_div_pos_is_pos(total * elapsed, duration);
    }
}

/// For a non-negative total, the vested amount never decreases as time passes.
pub proof fn lemma_vested_monotonic(total: int, start: int, end: int, cliff: int, earlier: int, later: int)
    requires
        0 <= total,
        earlier <= later,
    ensures
        vested_spec(total, start, end, cliff, earlier) <= vested_spec(total, start, end, cliff, later),
{
    lemma_vested_within_total(total, start, end, cliff, earlier);
    lemma_vested_within_total(total, start, end, cliff, later);
    if cliff <= earlier && start <= earlier && later < end {
        let duration = end - start;
        lemma_mul_inequality(earlier - start, later - start, total);
        assert((earlier - start) * total == total * (earlier - start)
            && (later - start) * total == total * (later - start)) by (nonlinear_arith);
        lemma_mul_nonnegative(total, earlier - start);
        lemma_div_is_ordered(total * (earlier - start), total * (later - start), duration);
    }
}

/// At `end_time` the whole amount has vested, for any cliff inside the window.
pub proof fn lemma_vested_at_end_is_total(total: int, start: int, end: int, cliff: int)
    requires
        start <= end,
        cliff <= end,
    ensures
        vested_spec(total, start, end, cliff, end) == total,
{
}

/// A cliff only withholds: from the cliff onward the schedule is the one
/// without a cliff.
pub proof fn lemma_cliff_only_withholds(total: int, start: int, end: int, cliff: int, now: int)
    requires
        cliff <= now,
    ensures
        vested_spec(total, start, end, cliff, now) == vested_spec(total, start, end, start, now),
{
}

/// A stream whose cliff does not come after its start vests exactly like the
/// same stream with its cliff set to the start, at every instant.
pub proof fn lemma_cliff_at_start_is_no_cliff(total: int, start: int, end: int, cliff: int, now: int)
    requires
        cliff <= start,
    ensures
        vested_spec(total, start, end, cliff, now) == vested_spec(total, start, end, start, now),
{
}

/// A cliff at the end time is a pure lockup: nothing before the end, everything
/// from the end.
pub proof fn lemma_cliff_at_end_is_lockup(total: int, start: int, end: int, now: int)
    requires
        start <= end,
    ensures
        vested_spec(total, start, end, end, now) == (if now < end { 0 } else { total }),
{
}

/// Inside the window the vested amount is the exact linear share rounded down:
/// the recipient is never credited more than `total * elapsed / duration`, and
/// less by under one unit.
pub proof fn lemma_vested_rounds_down(total: int, start: int, end: int, cliff: int, now: int)
    requires
        0 <= total,
        cliff <= now,
        start <= now < end,
    ensures
        vested_spec(total, start, end, cliff, now) * (end - start) <= total * (now - start),
        total * (now - start) < (vested_spec(total, start, end, cliff, now) + 1) * (end - start),
{
    let duration = end - start;
    let product = total * (now - start);
    lemma_mul_nonnegative(total, now - start);
    lemma_fundamental_div_mod(product, duration);
    let q = product / duration;
    assert(q * duration == duration * q && (q + 1) * duration == duration * q + duration) by (nonlinear_arith);
}

/// Below the amount ceiling the product `total * elapsed` stays inside `i128`
/// for any elapsed time a `u64` clock can measure.
pub proof fn lemma_vesting_product_fits(total: int, elapsed: int)
    requires
        0 <= total <= 9_223_372_036_854_775_807,
        0 <= elapsed <= u64::MAX,
    ensures
        0 <= total * elapsed <= i128::MAX,
{
    assert(0 <= total * elapsed <= 9_223_372_036_854_775_807 * 18_446_744_073_709_551_615) by (nonlinear_arith)
        requires
            0 <= total <= 9_223_372_036_854_775_807,
            0 <= elapsed <= 18_446_744_073_709_551_615,
    ;
}

/// Inside the window a negative total vests its linear share rounded toward
/// zero, as `i128` division rounds: `total * elapsed / duration` raised to the
/// next integer, never below the exact share.
pub proof fn lemma_negative_total_rounds_toward_zero(total: int, start: int, end: int, cliff: int, now: int)
    requires
        total < 0,
        cliff <= now,
        start <= now < end,
    ensures
        total * (now - start) <= vested_spec(total, start, end, cliff, now) * (end - start),
        (vested_spec(total, start, end, cliff, now) - 1) * (end - start) < total * (now - start),
        vested_spec(total, start, end, cliff, now) <= 0,
{
    let duration = end - start;
    let product = (-total) * (now - start);
    lemma_mul_nonnegative(-total, now - start);
    lemma_fundamental_div_mod(product, duration);
    let q = product / duration;
    lemma_div_pos_is_pos(product, duration);
    assert(total * (now - start) == -product) by (nonlinear_arith)
        requires
            product == (-total) * (now - start),
    ;
    assert(q * duration == duration * q && (-q - 1) * duration == -(duration * q) - duration
        && (-q) * duration == -(duration * q)) by (nonlinear_arith);
}

/// Nothing vests before the start or before the cliff.
pub proof fn lemma_nothing_vests_before_start_or_cliff(total: int, start: int, end: int, cliff: int, now: int)
    requires
        now < start || now < cliff,
    ensures
        vested_spec(total, start, end, cliff, now) == 0,
{
}

/// Once the start, the cliff and the end have all passed, the whole total has
/// vested.
pub proof fn lemma_everything_vests_once_all_have_passed(total: int, start: int, end: int, cliff: int, now: int)
    requires
        start <= now,
        cliff <= now,
        end <= now,
    ensures
        vested_spec(total, start, end, cliff, now) == total,
{
}

/// The withdrawable amount is what has vested beyond what was withdrawn, and
/// nothing when the withdrawals have caught up.
pub proof fn lemma_withdrawable_is_the_excess(vested: int, withdrawn: int)
    ensures
        withdrawn <= vested ==> withdrawable_spec(vested, withdrawn) == vested - withdrawn,
        vested <= withdrawn ==> withdrawable_spec(vested, withdrawn) == 0,
{
}

} // verus!
