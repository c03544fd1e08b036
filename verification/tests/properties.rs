use babysitter::earnings::{Babysitter, Rate};
use babysitter::schedule::Schedule;

fn schedule() -> Schedule {
    Schedule { earliest_arrival: 5, latest_bedtime: 12, latest_shift_end: 4 }
}

fn sitter() -> Babysitter {
    Babysitter {
        rate: Rate { standard_rate: 10, house_sit_rate: 6, after_midnight_bonus: 2 },
        schedule: schedule(),
    }
}

#[test]
fn zero_length_shift_earns_nothing_at_any_bedtime() {
    for time in 0i32..=12 {
        for bedtime in 0i32..=12 {
            assert!(schedule().is_zero_hour_shift(time, time));
            assert_eq!(sitter().get_earnings(time, time, bedtime), 0);
        }
    }
}

#[test]
fn band_hours_sum_to_shift_length_without_wraparound() {
    // Same-side shifts: the two bands cover (departure - arrival) mod 12.
    assert_eq!(
        schedule().get_hours_before_bedtime(5, 11, 8) + schedule().get_hours_after_bedtime(5, 11, 8),
        (11 - 5) % 12
    );
    assert_eq!(
        schedule().get_hours_before_bedtime(8, 12, 9) + schedule().get_hours_after_bedtime(8, 12, 9),
        (12 - 8) % 12
    );
    assert_eq!(
        schedule().get_hours_before_bedtime(1, 4, 12) + schedule().get_hours_after_bedtime(1, 4, 12),
        (4 - 1) % 12
    );
}

#[test]
fn band_hours_sum_to_wraparound_length() {
    // Wraparound shift from 5 to 4: evening remainder plus morning hours.
    let covered: i32 =
        schedule().get_hours_before_bedtime(5, 4, 8) + schedule().get_hours_after_bedtime(5, 4, 8);
    assert_eq!(covered, (12 - 5) + 4);
    assert_eq!(covered, (4i32 - 5).rem_euclid(12));
}

#[test]
fn after_midnight_hours_never_exceed_after_bedtime_hours() {
    let cases = [(5, 4, 8), (5, 4, 12), (12, 4, 12), (2, 3, 8), (8, 12, 9), (5, 5, 5)];
    for (arrival, departure, bedtime) in cases {
        assert!(
            schedule().get_hours_after_midnight(arrival, departure)
                <= schedule().get_hours_after_bedtime(arrival, departure, bedtime)
        );
    }
}

#[test]
fn earnings_are_the_same_on_a_second_call() {
    let cases = [(5, 8, 8), (5, 4, 8), (12, 4, 12), (6, 5, 12), (5, 5, 5)];
    for (arrival, departure, bedtime) in cases {
        let first: i32 = sitter().get_earnings(arrival, departure, bedtime);
        let second: i32 = sitter().get_earnings(arrival, departure, bedtime);
        assert_eq!(first, second);
    }
}

#[test]
fn standard_only_shift_pays_thirty() {
    assert_eq!(sitter().get_earnings(5, 8, 8), 30);
}

#[test]
fn house_sit_only_shift_pays_twenty_four() {
    assert_eq!(sitter().get_earnings(8, 12, 8), 24);
}

#[test]
fn after_midnight_shift_pays_the_bonus_on_top() {
    assert_eq!(sitter().get_earnings(12, 4, 12), 32);
}

#[test]
fn wraparound_shift_pays_all_three_bands() {
    assert_eq!(sitter().get_earnings(5, 4, 8), 86);
}

#[test]
fn backwards_evening_shift_is_rejected_with_zero_pay() {
    assert!(!schedule().is_valid_schedule(6, 5));
    assert_eq!(sitter().get_earnings(6, 5, 12), 0);
}

#[test]
fn zero_length_shift_at_the_boundary_pays_nothing() {
    assert_eq!(sitter().get_earnings(5, 5, 5), 0);
}

#[test]
fn readings_below_the_earliest_arrival_are_after_midnight() {
    assert!(schedule().the(4).is_after_midnight());
    assert!(schedule().the(0).is_after_midnight());
    assert!(!schedule().the(5).is_after_midnight());
    assert!(schedule().the(5).is_before_midnight());
    assert!(schedule().the(12).is_before_midnight());
}

#[test]
fn whole_shift_after_midnight_only_when_both_readings_are() {
    assert!(schedule().all_work_after_midnight(1, 4));
    assert!(!schedule().all_work_after_midnight(5, 4));
    assert!(!schedule().all_work_after_midnight(1, 5));
    assert!(!schedule().all_work_after_midnight(5, 12));
}

#[test]
fn full_dial_wraparound_shift_is_valid() {
    assert!(schedule().is_valid_schedule(12, 0));
    assert_eq!(schedule().get_hours_before_bedtime(12, 0, 12), 0);
    assert_eq!(schedule().get_hours_after_bedtime(12, 0, 12), 0);
    assert_eq!(schedule().get_hours_after_midnight(12, 0), 0);
    assert_eq!(sitter().get_earnings(12, 0, 12), 0);
}

#[test]
fn departure_at_latest_shift_end_earns_every_morning_hour() {
    // Arrival at the boundary, bedtime at the top of the dial, departure at
    // the latest permitted end: 7 standard hours, then 4 bonus hours.
    assert_eq!(sitter().get_earnings(5, 4, 12), 7 * 10 + 4 * (6 + 2));
}
