use nepa_contract::reliability::{OracleReliability, NEUTRAL_SCORE};

fn record(success_count: u32, failure_count: u32, average_response_time: u64) -> OracleReliability {
    OracleReliability {
        success_count,
        failure_count,
        last_success: 0,
        last_failure: 0,
        average_response_time,
    }
}

#[test]
fn score_is_neutral_without_calls() {
    let r = OracleReliability::new();
    assert_eq!(r.reliability_score(), 50);
    assert_eq!(NEUTRAL_SCORE, 50);
    // The response time does not matter while nothing has been counted.
    assert_eq!(record(0, 0, 99_999).reliability_score(), 50);
}

#[test]
fn score_of_eight_successes_two_failures_fast_responses() {
    assert_eq!(record(8, 2, 2000).reliability_score(), 90);
}

#[test]
fn score_steps_with_the_average_response_time() {
    // All calls succeeded: the success rate is 100.
    assert_eq!(record(4, 0, 0).reliability_score(), 100);
    assert_eq!(record(4, 0, 4999).reliability_score(), 100);
    assert_eq!(record(4, 0, 5000).reliability_score(), 87);
    assert_eq!(record(4, 0, 9999).reliability_score(), 87);
    assert_eq!(record(4, 0, 10_000).reliability_score(), 75);
    assert_eq!(record(4, 0, 29_999).reliability_score(), 75);
    assert_eq!(record(4, 0, 30_000).reliability_score(), 62);
    assert_eq!(record(4, 0, u64::MAX).reliability_score(), 62);
}

#[test]
fn score_is_lowest_for_failures_and_slow_responses() {
    assert_eq!(record(0, 7, 30_000).reliability_score(), 12);
    assert_eq!(record(0, 7, 0).reliability_score(), 50);
}

#[test]
fn score_rounds_the_success_rate_down() {
    // 1 of 3 is 33 percent; (33 + 100) / 2 = 66.
    assert_eq!(record(1, 2, 100).reliability_score(), 66);
    // 2 of 3 is 66 percent; (66 + 75) / 2 = 70.
    assert_eq!(record(2, 1, 7000).reliability_score(), 70);
}

#[test]
fn score_stays_within_bounds_for_the_largest_counters() {
    assert_eq!(record(u32::MAX, u32::MAX, 0).reliability_score(), 75);
    assert_eq!(record(u32::MAX, 0, 0).reliability_score(), 100);
    assert_eq!(record(0, u32::MAX, u64::MAX).reliability_score(), 12);
}

#[test]
fn first_outcome_sets_the_average() {
    let mut r = OracleReliability::new();
    r.record_outcome(true, 700, 42);
    assert_eq!(
        r,
        OracleReliability {
            success_count: 1,
            failure_count: 0,
            last_success: 42,
            last_failure: 0,
            average_response_time: 700,
        }
    );
}

#[test]
fn later_outcomes_fold_into_the_rolling_average() {
    let mut r = OracleReliability::new();
    r.record_outcome(true, 100, 1);
    r.record_outcome(false, 400, 2);
    // (100 * 1 + 400) / 2
    assert_eq!(r.average_response_time, 250);
    r.record_outcome(true, 0, 3);
    // (250 * 2 + 0) / 3 = 166
    assert_eq!(r.average_response_time, 166);
    assert_eq!(r.success_count, 2);
    assert_eq!(r.failure_count, 1);
    assert_eq!(r.last_success, 3);
    assert_eq!(r.last_failure, 2);
}

#[test]
fn failure_is_counted_and_stamped() {
    let mut r = record(3, 4, 10);
    r.record_outcome(false, 10, 77);
    assert_eq!(r.success_count, 3);
    assert_eq!(r.failure_count, 5);
    assert_eq!(r.last_failure, 77);
    assert_eq!(r.last_success, 0);
    assert_eq!(r.average_response_time, 10);
}

#[test]
fn rolling_average_of_the_largest_values_does_not_overflow() {
    let mut r = record(u32::MAX - 1, u32::MAX, u64::MAX);
    r.record_outcome(true, u64::MAX, 5);
    assert_eq!(r.average_response_time, u64::MAX);
    assert_eq!(r.success_count, u32::MAX);
}

#[test]
fn room_for_one_more_outcome() {
    assert!(record(0, 0, 0).has_room(true));
    assert!(record(u32::MAX - 1, 0, 0).has_room(true));
    assert!(!record(u32::MAX, 0, 0).has_room(true));
    assert!(record(u32::MAX, 0, 0).has_room(false));
    assert!(!record(0, u32::MAX, 0).has_room(false));
}
