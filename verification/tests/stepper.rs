use service_scaler::crd::{
    HpaOverrideSpec, ReplicaSpec, TimeRangeSpec, TimeRangeType,
};
use service_scaler::error::Error;
use service_scaler::stepper::{
    determine_next_target, determine_next_target_at, step, step_at, step_toward,
    RAMP_INTERVALS, RECONCILIATION_PERIOD,
};
use service_scaler::time::{parse_ranges, ClockReading, Instant, TimedRange};

const AT_18_00: i64 = 1793210400;
const AT_21_40: i64 = 1793223600;
const AT_22_00: i64 = 1793224800;
const AT_22_10: i64 = 1793225400;
const AT_22_30: i64 = 1793226600;
const AT_23_00: i64 = 1793228400;
const AT_23_05: i64 = 1793228700;

fn at(secs: i64) -> Instant {
    Instant { secs, nanos: 0 }
}

fn bounds(min: Option<i32>, max: Option<i32>) -> HpaOverrideSpec {
    HpaOverrideSpec {
        min_replicas: min,
        max_replicas: max,
        target_cpu_utilization: None,
        target_memory_utilization: None,
    }
}

fn daily(from: i64, to: i64, min: Option<i32>, max: Option<i32>) -> TimedRange {
    TimedRange { kind: TimeRangeType::ZonedTime, from: at(from), to: at(to), hpa: bounds(min, max) }
}

fn absolute(from: i64, to: i64, min: Option<i32>, max: Option<i32>) -> TimedRange {
    TimedRange {
        kind: TimeRangeType::ZonedDateTime,
        from: at(from),
        to: at(to),
        hpa: bounds(min, max),
    }
}

fn evening() -> Vec<TimedRange> {
    vec![daily(AT_22_00, AT_23_00, Some(8), Some(20))]
}

fn written(kind: TimeRangeType, from: &str, to: &str, min: i32, max: i32) -> TimeRangeSpec {
    TimeRangeSpec {
        kind,
        from: from.to_string(),
        to: to.to_string(),
        replica_spec: ReplicaSpec { hpa: bounds(Some(min), Some(max)) },
    }
}

#[test]
fn period_and_ramp() {
    assert_eq!(RECONCILIATION_PERIOD, 300);
    assert_eq!(RAMP_INTERVALS, 6);
}

#[test]
fn step_moves_one_part_of_the_distance() {
    assert_eq!(step_toward(2, 8, 6), 3);
    assert_eq!(step_toward(10, 20, 6), 11);
    assert_eq!(step_toward(2, 8, 1), 8);
    assert_eq!(step_toward(2, 8, 2), 5);
    assert_eq!(step_toward(8, 8, 4), 8);
}

#[test]
fn step_rounds_toward_zero() {
    assert_eq!(step_toward(10, 2, 3), 8);
    assert_eq!(step_toward(2, 10, 3), 4);
    assert_eq!(step_toward(20, 10, 6), 19);
    assert_eq!(step_toward(8, 2, 6), 7);
}

#[test]
fn step_stalls_when_the_distance_is_below_the_jump() {
    assert_eq!(step_toward(2, 5, 6), 2);
    assert_eq!(step_toward(5, 2, 6), 5);
}

#[test]
fn step_spans_the_whole_range_of_bounds() {
    assert_eq!(step_toward(i32::MIN, i32::MAX, 1), i32::MAX);
    assert_eq!(step_toward(i32::MAX, i32::MIN, 1), i32::MIN);
    assert_eq!(step_toward(i32::MIN, i32::MAX, 2), -1);
    assert_eq!(step_toward(i32::MAX, i32::MIN, i64::MAX), i32::MAX);
}

#[test]
fn no_ranges_no_target() {
    let none: Vec<TimedRange> = vec![];
    let (jump, target) = determine_next_target_at(2, &none, false, &at(AT_18_00));
    assert_eq!(jump, i64::MAX / 300);
    assert_eq!(target, None);
}

#[test]
fn window_ahead_offers_its_override() {
    let (jump, target) = determine_next_target_at(2, &evening(), false, &at(AT_18_00));
    assert_eq!((jump, target), (48, Some(8)));
    let (jump, target) = determine_next_target_at(10, &evening(), true, &at(AT_18_00));
    assert_eq!((jump, target), (48, Some(20)));
    let (jump, target) = determine_next_target_at(2, &evening(), false, &at(AT_21_40));
    assert_eq!((jump, target), (4, Some(8)));
}

#[test]
fn window_end_offers_the_default() {
    let (jump, target) = determine_next_target_at(2, &evening(), false, &at(AT_22_30));
    assert_eq!((jump, target), (6, Some(2)));
    let (jump, target) = determine_next_target_at(10, &evening(), true, &at(AT_22_10));
    assert_eq!((jump, target), (10, Some(10)));
}

#[test]
fn jump_is_at_least_one() {
    let (jump, _) = determine_next_target_at(2, &evening(), false, &at(AT_22_00 - 299));
    assert_eq!(jump, 1);
    let (jump, _) = determine_next_target_at(2, &evening(), false, &at(AT_22_00 - 300));
    assert_eq!(jump, 1);
    let (jump, _) = determine_next_target_at(2, &evening(), false, &at(AT_22_00 - 600));
    assert_eq!(jump, 2);
    let (jump, _) = determine_next_target_at(2, &evening(), false, &at(AT_22_00));
    assert_eq!(jump, 1);
}

#[test]
fn absolute_window_in_the_past_has_jump_one() {
    let past = vec![absolute(AT_18_00, AT_21_40, Some(8), Some(20))];
    let (jump, target) = determine_next_target_at(2, &past, false, &at(AT_22_30));
    assert_eq!((jump, target), (1, Some(8)));
    assert_eq!(step_at(2, 2, 2, &past, false, &at(AT_22_30)), 8);
}

#[test]
fn override_without_the_bound_offers_no_target() {
    let partial = vec![daily(AT_22_00, AT_23_00, None, Some(20))];
    let (jump, target) = determine_next_target_at(2, &partial, false, &at(AT_21_40));
    assert_eq!((jump, target), (4, None));
    let (jump, target) = determine_next_target_at(10, &partial, true, &at(AT_21_40));
    assert_eq!((jump, target), (4, Some(20)));
    assert_eq!(step_at(5, 2, 7, &partial, false, &at(AT_21_40)), 2);
}

#[test]
fn nearest_boundary_wins() {
    let two = vec![
        daily(AT_22_00, AT_23_00, Some(8), Some(20)),
        daily(AT_21_40, AT_22_10, Some(4), Some(12)),
    ];
    let (jump, target) = determine_next_target_at(2, &two, false, &at(AT_21_40 - 600));
    assert_eq!((jump, target), (2, Some(4)));
    let swapped = vec![two[1], two[0]];
    let (jump, target) = determine_next_target_at(2, &swapped, false, &at(AT_21_40 - 600));
    assert_eq!((jump, target), (2, Some(4)));
}

#[test]
fn later_range_wins_a_tie_between_starts() {
    let two = vec![
        daily(AT_22_00, AT_23_00, Some(8), Some(20)),
        daily(AT_22_00, AT_23_05, Some(4), Some(12)),
    ];
    let (_, target) = determine_next_target_at(2, &two, false, &at(AT_21_40));
    assert_eq!(target, Some(4));
    let swapped = vec![two[1], two[0]];
    let (_, target) = determine_next_target_at(2, &swapped, false, &at(AT_21_40));
    assert_eq!(target, Some(8));
}

#[test]
fn end_does_not_replace_a_start_at_the_same_distance() {
    // one window starts at 22:00, the other one, open now, ends at 22:00
    let start_first = vec![
        daily(AT_22_00, AT_23_00, Some(8), Some(20)),
        daily(AT_18_00, AT_22_00, Some(4), Some(12)),
    ];
    let (jump, target) = determine_next_target_at(2, &start_first, false, &at(AT_21_40));
    assert_eq!((jump, target), (4, Some(8)));
    let end_first = vec![start_first[1], start_first[0]];
    let (jump, target) = determine_next_target_at(2, &end_first, false, &at(AT_21_40));
    assert_eq!((jump, target), (4, Some(8)));
}

#[test]
fn equal_distances_of_one_range_count_as_its_start() {
    // from and to of the same day and minute: the start is taken
    let point = vec![daily(AT_22_00, AT_22_00, Some(8), Some(20))];
    let (jump, target) = determine_next_target_at(2, &point, false, &at(AT_21_40));
    assert_eq!((jump, target), (4, Some(8)));
}

#[test]
fn ramp_up_far_away() {
    let now = at(AT_18_00);
    assert_eq!(service_scaler::time::diff_from_now(&at(AT_22_00), &TimeRangeType::ZonedTime, &now), 14400);
    let (jump, _) = determine_next_target_at(2, &evening(), false, &now);
    assert_eq!(jump, 48);
    assert_eq!(step_at(2, 2, 2, &evening(), false, &now), 2);
    assert_eq!(step_at(10, 10, 10, &evening(), true, &now), 10);
}

#[test]
fn ramp_up_inside_the_band() {
    // 20 minutes before the window: four reconciliations are left
    let now = at(AT_21_40);
    assert_eq!(step_at(2, 2, 2, &evening(), false, &now), 3);
    assert_eq!(step_at(10, 10, 10, &evening(), true, &now), 12);
    // at the last reconciliation the target is reached exactly
    let last = at(AT_22_00 - 300);
    assert_eq!(step_at(6, 2, 2, &evening(), false, &last), 8);
    assert_eq!(step_at(17, 10, 10, &evening(), true, &last), 20);
}

#[test]
fn inside_window_far_from_its_end_the_fallback_applies() {
    let now = at(AT_22_10);
    assert_eq!(step_at(2, 2, 8, &evening(), false, &now), 8);
    assert_eq!(step_at(10, 10, 20, &evening(), true, &now), 20);
}

#[test]
fn inside_window_near_its_end_the_bound_steps_to_the_default() {
    let now = at(AT_22_30);
    assert_eq!(service_scaler::time::diff_from_now(&at(AT_23_00), &TimeRangeType::ZonedTime, &now), 1800);
    let (jump, target) = determine_next_target_at(2, &evening(), false, &now);
    assert_eq!((jump, target), (6, Some(2)));
    assert_eq!(step_at(8, 2, 8, &evening(), false, &now), 7);
    assert_eq!(step_at(20, 10, 20, &evening(), true, &now), 19);
    // a bound that is at the default already stays there
    assert_eq!(step_at(2, 2, 8, &evening(), false, &now), 2);
    assert_eq!(step_at(10, 10, 20, &evening(), true, &now), 10);
}

#[test]
fn ramp_down_after_the_window() {
    let now = at(AT_23_05);
    assert_eq!(service_scaler::time::diff_from_now(&at(AT_23_00), &TimeRangeType::ZonedTime, &now), 86100);
    let (jump, target) = determine_next_target_at(2, &evening(), false, &now);
    assert_eq!((jump, target), (275, Some(8)));
    assert_eq!(step_at(8, 2, 2, &evening(), false, &now), 2);
    assert_eq!(step_at(20, 10, 10, &evening(), true, &now), 10);
}

#[test]
fn without_ranges_the_default_applies() {
    let none: Vec<TimedRange> = vec![];
    assert_eq!(step_at(5, 2, 3, &none, false, &at(AT_18_00)), 2);
    assert_eq!(step_at(5, 10, 3, &none, true, &at(AT_18_00)), 10);
}

#[test]
fn without_a_target_the_default_applies_however_far_the_boundary() {
    let partial = vec![daily(AT_22_00, AT_23_00, None, Some(20))];
    // four hours ahead, twenty minutes ahead, and at the boundary
    for now in [AT_18_00, AT_21_40, AT_22_00] {
        assert_eq!(step_at(5, 2, 7, &partial, false, &at(now)), 2);
    }
    // the bound that the override names is stepped as usual
    assert_eq!(step_at(10, 10, 13, &partial, true, &at(AT_18_00)), 13);
    assert_eq!(step_at(10, 10, 13, &partial, true, &at(AT_21_40)), 12);
}

#[test]
fn stepper_stays_between_current_and_target() {
    for curr in [-3, 0, 2, 7, 8, 9, 40] {
        for minutes in [1, 5, 9, 10, 14, 15, 24, 25, 29, 30] {
            let now = at(AT_22_00 - 60 * minutes);
            let r = step_at(curr, 2, 100, &evening(), false, &now);
            let (low, high) = if curr <= 8 { (curr, 8) } else { (8, curr) };
            assert!(low <= r && r <= high, "{} from {} at -{}", r, curr, minutes);
        }
    }
}

#[test]
fn repeated_steps_reach_the_target() {
    let mut min = 2;
    let mut max = 10;
    for minutes in [30, 25, 20, 15, 10, 5] {
        let now = at(AT_22_00 - 60 * minutes);
        min = step_at(min, 2, 2, &evening(), false, &now);
        max = step_at(max, 10, 10, &evening(), true, &now);
        assert!(min <= max);
    }
    assert_eq!((min, max), (8, 20));
}

#[test]
fn ranges_are_read_before_stepping() {
    let ranges = vec![written(TimeRangeType::ZonedTime, "22:00+00:00", "23:00+00:00", 8, 20)];
    let clock = ClockReading { now: at(AT_21_40), utc_offset: 0 };
    let timed = parse_ranges(&ranges, &clock).unwrap();
    assert_eq!(timed, evening());
    assert_eq!(step_at(2, 2, 2, &timed, false, &clock.now), 3);
}

#[test]
fn one_unreadable_range_fails_the_list() {
    let ranges = vec![
        written(TimeRangeType::ZonedTime, "22:00+00:00", "23:00+00:00", 8, 20),
        written(TimeRangeType::ZonedTime, "22:00+00:00", "whenever", 8, 20),
    ];
    let clock = ClockReading { now: at(AT_21_40), utc_offset: 0 };
    let e = parse_ranges(&ranges, &clock).unwrap_err();
    assert!(matches!(e, Error::UserInputError(text) if text == "Failed to parse from ZonedDateTime"));
}

#[test]
fn step_by_the_clock() {
    let far = vec![written(
        TimeRangeType::ZonedDateTime,
        "9000-01-01T00:00:00Z",
        "9000-01-02T00:00:00Z",
        8,
        20,
    )];
    assert_eq!(step(2, 3, 5, &far, false).unwrap(), 5);
    let past = vec![written(
        TimeRangeType::ZonedDateTime,
        "2000-01-01T00:00:00Z",
        "2000-01-02T00:00:00Z",
        8,
        20,
    )];
    assert_eq!(step(2, 3, 5, &past, false).unwrap(), 8);
    assert_eq!(step(2, 3, 5, &past, true).unwrap(), 20);
    assert_eq!(step(2, 3, 5, &vec![], false).unwrap(), 3);
    let bad = vec![written(TimeRangeType::ZonedDateTime, "x", "y", 8, 20)];
    assert!(matches!(step(2, 3, 5, &bad, false), Err(Error::UserInputError(_))));
}

#[test]
fn next_target_by_the_clock() {
    let past = vec![written(
        TimeRangeType::ZonedDateTime,
        "2000-01-01T00:00:00Z",
        "2000-01-02T00:00:00Z",
        8,
        20,
    )];
    assert_eq!(determine_next_target(3, &past, false).unwrap(), (1, Some(8)));
    assert_eq!(determine_next_target(3, &vec![], true).unwrap(), (i64::MAX / 300, None));
    let bad = vec![written(TimeRangeType::ZonedTime, "22:00", "23:00", 8, 20)];
    assert!(matches!(determine_next_target(3, &bad, false), Err(Error::UserInputError(_))));
}
