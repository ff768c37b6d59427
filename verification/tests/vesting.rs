use tricklepay_stream::vesting::{vested_amount, withdrawable_amount};

// A reference stream: 1000 units over [100, 1100], no cliff (cliff == start).
const TOTAL: i128 = 1_000;
const START: u64 = 100;
const END: u64 = 1_100;

#[test]
fn nothing_vests_before_start() {
    assert_eq!(vested_amount(TOTAL, START, END, START, 50), 0);
}

#[test]
fn nothing_vests_before_cliff() {
    assert_eq!(vested_amount(TOTAL, START, END, 600, 300), 0);
}

#[test]
fn half_vests_at_midpoint() {
    assert_eq!(vested_amount(TOTAL, START, END, START, 600), 500);
}

#[test]
fn quarter_vests_at_quarter_point() {
    assert_eq!(vested_amount(TOTAL, START, END, START, 350), 250);
}

#[test]
fn full_amount_vests_at_end() {
    assert_eq!(vested_amount(TOTAL, START, END, START, END), TOTAL);
}

#[test]
fn full_amount_vests_after_end() {
    assert_eq!(vested_amount(TOTAL, START, END, START, 9_999), TOTAL);
}

#[test]
fn cliff_releases_accrued_amount_at_once() {
    assert_eq!(vested_amount(TOTAL, START, END, 600, 600), 500);
}

#[test]
fn three_quarters_vest_at_the_three_quarter_point() {
    assert_eq!(vested_amount(TOTAL, START, END, START, 850), 750);
}

#[test]
fn cliff_equal_to_start_behaves_as_no_cliff() {
    for now in [50, 100, 350, 600, 850, END, 9_999] {
        assert_eq!(
            vested_amount(TOTAL, START, END, START, now),
            vested_amount(TOTAL, START, END, 0, now),
            "cliff == start must match a cliff already in the past"
        );
    }
}

#[test]
fn cliff_schedule_matches_the_readme_example() {
    const CLIFF: u64 = 600;

    assert_eq!(vested_amount(TOTAL, START, END, CLIFF, 300), 0);
    assert_eq!(vested_amount(TOTAL, START, END, CLIFF, CLIFF), 500);
    assert_eq!(vested_amount(TOTAL, START, END, CLIFF, 850), 750);
    assert_eq!(vested_amount(TOTAL, START, END, CLIFF, END), TOTAL);

    for now in [CLIFF, 850, END] {
        assert_eq!(
            vested_amount(TOTAL, START, END, CLIFF, now),
            vested_amount(TOTAL, START, END, START, now),
            "from the cliff onward both schedules must agree"
        );
    }
}

#[test]
fn cliff_at_the_end_withholds_everything_until_the_window_closes() {
    assert_eq!(vested_amount(TOTAL, START, END, END, END - 1), 0);
    assert_eq!(vested_amount(TOTAL, START, END, END, END), TOTAL);
}

#[test]
fn integer_division_rounds_down() {
    // 10 * 1 / 3 = 3.33, truncated to 3.
    assert_eq!(vested_amount(10, 0, 3, 0, 1), 3);
}

#[test]
fn withdrawable_subtracts_withdrawn() {
    assert_eq!(withdrawable_amount(500, 200), 300);
}

#[test]
fn withdrawable_is_never_negative() {
    assert_eq!(withdrawable_amount(200, 500), 0);
}

#[test]
fn withdrawable_is_zero_when_fully_taken() {
    assert_eq!(withdrawable_amount(300, 300), 0);
}

// ---------------------------------------------------------------------------
// Worked examples and the proven properties on concrete values.

/// A one-year grant of 12000 units with a three-month cliff.
#[test]
fn a_one_year_grant_with_a_three_month_cliff() {
    const START: u64 = 1_735_689_600;
    const CLIFF: u64 = 1_743_465_600;
    const END: u64 = 1_767_225_600;
    assert_eq!(vested_amount(12_000, START, END, CLIFF, 1_738_368_000), 0);
    assert_eq!(vested_amount(12_000, START, END, CLIFF, CLIFF), 2_958);
    assert_eq!(vested_amount(12_000, START, END, CLIFF, 1_751_328_000), 5_950);
    assert_eq!(vested_amount(12_000, START, END, CLIFF, END), 12_000);
}

#[test]
fn vested_is_within_zero_and_total_at_sampled_instants() {
    for now in [0, 99, 100, 101, 599, 600, 1_099, 1_100, u64::MAX] {
        let v = vested_amount(TOTAL, START, END, 600, now);
        assert!((0..=TOTAL).contains(&v));
    }
}

#[test]
fn vested_is_monotonic_at_sampled_instants() {
    let instants = [0, 99, 100, 101, 333, 599, 600, 601, 777, 1_099, 1_100, u64::MAX];
    for pair in instants.windows(2) {
        assert!(
            vested_amount(TOTAL, START, END, START, pair[0])
                <= vested_amount(TOTAL, START, END, START, pair[1])
        );
    }
}

/// The amount ceiling keeps the product in range over the longest window the
/// clock allows.
#[test]
fn vesting_the_ceiling_over_the_whole_clock_does_not_overflow() {
    let max = i64::MAX as i128;
    let v = vested_amount(max, 0, u64::MAX, 0, u64::MAX - 1);
    assert_eq!(v, max * ((u64::MAX - 1) as i128) / (u64::MAX as i128));
    assert!(v < max);
}

/// A negative total (never stored, but accepted by the pure function) is
/// divided toward zero, as `i128` division rounds.
#[test]
fn negative_totals_round_toward_zero() {
    assert_eq!(vested_amount(-10, 0, 3, 0, 1), -3);
}

#[test]
fn withdrawable_stays_within_vested_for_sampled_pairs() {
    for (vested, withdrawn) in [(0, 0), (1, 0), (0, 1), (500, 499), (i64::MAX as i128, 0)] {
        let w = withdrawable_amount(vested, withdrawn);
        assert!(w >= 0 && w <= vested);
    }
}
