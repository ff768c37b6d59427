use tricklepay_stream::storage::{BUMP_THRESHOLD, ENTRY_TTL};
use tricklepay_stream::{DataKey, MAX_AMOUNT};

#[test]
fn the_amount_ceiling_is_i64_max() {
    assert_eq!(MAX_AMOUNT, i64::MAX as i128);
}

#[test]
fn the_amount_ceiling_keeps_the_vesting_product_inside_i128() {
    let largest_possible_product = MAX_AMOUNT.saturating_mul(u64::MAX as i128);
    assert!(
        largest_possible_product < i128::MAX,
        "MAX_AMOUNT * u64::MAX must stay below i128::MAX, got {}",
        largest_possible_product
    );
}

#[test]
fn the_bump_threshold_is_a_fifth_of_the_entry_lifetime() {
    assert_eq!(ENTRY_TTL, 518_400);
    assert_eq!(BUMP_THRESHOLD * 5, ENTRY_TTL);
}

#[test]
fn the_counter_and_each_stream_have_their_own_keys() {
    assert_ne!(DataKey::StreamCount, DataKey::Stream(0));
    assert_ne!(DataKey::Stream(0), DataKey::Stream(1));
    assert_eq!(DataKey::Stream(u64::MAX), DataKey::Stream(u64::MAX));
}
