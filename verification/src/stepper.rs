//! Gradual movement of a replica bound toward the value that the schedule
//! asks for next.

use crate::crd::{HpaOverrideSpec, TimeRangeSpec};
use crate::error::{answer, Error, UNREADABLE_TIMESTAMP};
use crate::time::{
    all_timed, diff_from_now, div_toward_zero, parse_ranges, read_clock, seconds_until,
    ClockReading, Instant, TimedRange,
};
use vstd::prelude::*;

verus! {

/// Seconds between two reconciliations of the same object.
pub const RECONCILIATION_PERIOD: u64 = 300;

/// Number of reconciliations before a boundary during which a bound is stepped.
pub const RAMP_INTERVALS: i64 = 6;

/// The lower or the upper bound of an override.
pub open spec fn bound_of(hpa: HpaOverrideSpec, is_max: bool) -> Option<i32> {
    if is_max {
        hpa.max_replicas
    } else {
        hpa.min_replicas
    }
}

/// Seconds to the boundary of a range that comes next: its start where that
/// is not later than its end, else its end.
pub open spec fn boundary_distance(range: TimedRange, now: Instant) -> int {
    let to_start = seconds_until(range.from, range.kind, now);
    let to_end = seconds_until(range.to, range.kind, now);
    if to_start <= to_end {
        to_start
    } else {
        to_end
    }
}

/// The distance in seconds to the nearest boundary of any range, and the
/// value that applies behind that boundary.
///
/// The ranges are taken in order. A range whose start comes next offers the
/// bound of its override and replaces an earlier range at the same distance;
/// a range whose end comes next offers `default` and replaces only a range
/// that is strictly farther away. Without ranges the distance is the largest
/// 64-bit value and there is no target.
pub open spec fn nearest(default: i32, ranges: Seq<TimedRange>, is_max: bool, now: Instant) -> (int, Option<i32>)
    decreases ranges.len(),
{
    if ranges.len() == 0 {
        (i64::MAX as int, None)
    } else {
        let before = nearest(default, ranges.drop_last(), is_max, now);
        let range = ranges.last();
        let to_start = seconds_until(range.from, range.kind, now);
        let to_end = seconds_until(range.to, range.kind, now);
        if to_start <= to_end {
            if to_start <= before.0 {
                (to_start, bound_of(range.hpa, is_max))
            } else {
                before
            }
        } else {
            if to_end < before.0 {
                (to_end, Some(default))
            } else {
                before
            }
        }
    }
}

/// Number of reconciliations left before a boundary that is `distance` seconds away: at least one.
pub open spec fn jump_for(distance: int) -> int {
    let periods = div_toward_zero(distance, RECONCILIATION_PERIOD as int);
    if periods < 1 {
        1
    } else {
        periods
    }
}

/// The value one step away from `curr` on the way to `next`, when `jump` reconciliations remain.
pub open spec fn stepped(curr: int, next: int, jump: int) -> int {
    curr + div_toward_zero(next - curr, jump)
}

/// The bound to set now: `default` where no target is known, `fallback`
/// while the nearest boundary is more than the ramp away, else one step from
/// `curr` toward the target.
pub open spec fn step_result(curr: i32, default: i32, fallback: i32, jump: int, target: Option<i32>) -> int {
    match target {
        None => default as int,
        Some(next) => if jump > RAMP_INTERVALS {
            fallback as int
        } else {
            stepped(curr as int, next as int, jump)
        },
    }
}

/// The bound to set at the time `now`, for ranges whose endpoints have been read.
pub open spec fn step_at_spec(curr: i32, default: i32, fallback: i32, ranges: Seq<TimedRange>, is_max: bool, now: Instant) -> int {
    let found = nearest(default, ranges, is_max, now);
    step_result(curr, default, fallback, jump_for(found.0), found.1)
}

/// The nearest boundary is no farther than the boundary of any range, and
/// with at least one range it is the boundary of one of them.
pub proof fn nearest_is_smallest(default: i32, ranges: Seq<TimedRange>, is_max: bool, now: Instant)
    ensures
        forall|i: int|
            0 <= i < ranges.len() ==> nearest(default, ranges, is_max, now).0 <= boundary_distance(
                #[trigger] ranges[i],
                now,
            ),
        ranges.len() > 0 ==> exists|i: int|
            0 <= i < ranges.len() && nearest(default, ranges, is_max, now).0 == boundary_distance(
                #[trigger] ranges[i],
                now,
            ),
        i64::MIN <= nearest(default, ranges, is_max, now).0 <= i64::MAX,
    decreases ranges.len(),
{
    if ranges.len() > 0 {
        let front = ranges.drop_last();
        nearest_is_smallest(default, front, is_max, now);
        let last = ranges.len() - 1;
        assert forall|i: int| 0 <= i < ranges.len() implies nearest(default, ranges, is_max, now).0
            <= boundary_distance(#[trigger] ranges[i], now) by {
            if i < last {
                assert(front[i] == ranges[i]);
            }
        }
        if nearest(default, ranges, is_max, now) == nearest(default, front, is_max, now)
            && front.len() > 0 {
            let i = choose|i: int|
                0 <= i < front.len() && nearest(default, front, is_max, now).0 == boundary_distance(
                    #[trigger] front[i],
                    now,
                );
            assert(front[i] == ranges[i]);
        } else {
            assert(nearest(default, ranges, is_max, now).0 == boundary_distance(ranges[last], now));
        }
    }
}

/// Whether `x` lies in the closed interval between `a` and `b`, whichever of the two is larger.
pub open spec fn between(a: int, x: int, b: int) -> bool {
    a <= x <= b || b <= x <= a
}

/// Whether `next` is a value that the schedule can ask for: the default, or
/// the bound that the override of some range names.
pub open spec fn named_target(next: i32, default: i32, bounds: Seq<HpaOverrideSpec>, is_max: bool) -> bool {
    next == default || exists|i: int|
        0 <= i < bounds.len() && bound_of(#[trigger] bounds[i], is_max) == Some(next)
}

/// The overrides of ranges whose endpoints have been read, in order.
pub open spec fn overrides_of(ranges: Seq<TimedRange>) -> Seq<HpaOverrideSpec> {
    Seq::new(ranges.len(), |i: int| ranges[i].hpa)
}

/// The overrides of ranges as they are written, in order.
pub open spec fn written_overrides(ranges: Seq<TimeRangeSpec>) -> Seq<HpaOverrideSpec> {
    Seq::new(ranges.len(), |i: int| ranges[i].replica_spec.hpa)
}

/// The target behind the nearest boundary, where there is one, is the
/// default or a bound that some range names.
pub proof fn target_is_named(default: i32, ranges: Seq<TimedRange>, is_max: bool, now: Instant)
    ensures
        nearest(default, ranges, is_max, now).1 matches Some(next) ==> named_target(
            next,
            default,
            overrides_of(ranges),
            is_max,
        ),
    decreases ranges.len(),
{
    if ranges.len() > 0 {
        let front = ranges.drop_last();
        target_is_named(default, front, is_max, now);
        let last = ranges.len() - 1;
        match nearest(default, ranges, is_max, now).1 {
            Some(next) => {
                if next != default {
                    if nearest(default, ranges, is_max, now) == nearest(default, front, is_max, now) {
                        let i = choose|i: int|
                            0 <= i < front.len() && bound_of(
                                #[trigger] overrides_of(front)[i],
                                is_max,
                            ) == Some(next);
                        assert(overrides_of(ranges)[i] == overrides_of(front)[i]);
                    } else {
                        assert(bound_of(overrides_of(ranges)[last], is_max) == Some(next));
                    }
                }
            },
            None => {},
        }
    }
}

/// A step never leaves the closed interval between the current value and the target.
pub proof fn lemma_step_stays_between(curr: int, next: int, jump: int)
    requires
        jump >= 1,
    ensures
        curr <= next ==> curr <= stepped(curr, next, jump) <= next,
        curr >= next ==> next <= stepped(curr, next, jump) <= curr,
        jump == 1 ==> stepped(curr, next, jump) == next,
{
    let distance = if next >= curr {
        next - curr
    } else {
        curr - next
    };
    assert(0 <= distance / jump <= distance) by (nonlinear_arith)
        requires
            distance >= 0,
            jump >= 1,
    ;
    assert(distance / 1 == distance);
}

/// Moves `curr` toward `next` by one `jump`-th of the distance, rounded toward zero.
pub fn step_toward(curr: i32, next: i32, jump: i64) -> (r: i32)
    requires
        jump >= 1,
    ensures
        r == stepped(curr as int, next as int, jump as int),
        curr <= next ==> curr <= r <= next,
        curr >= next ==> next <= r <= curr,
{
    proof {
        lemma_step_stays_between(curr as int, next as int, jump as int);
    }
    let distance: i64 = next as i64 - curr as i64;
    let step: i64 = distance / jump;
    let moved: i64 = curr as i64 + step;
    moved as i32
}

/// The number of reconciliations left before the nearest boundary of any
/// range, and the value that applies behind that boundary.
pub fn determine_next_target_at(default: i32, ranges: &Vec<TimedRange>, is_max: bool, now: &Instant) -> (r: (i64, Option<i32>))
    ensures
        r.0 == jump_for(nearest(default, ranges@, is_max, *now).0),
        r.1 == nearest(default, ranges@, is_max, *now).1,
        r.0 >= 1,
{
    let mut min_diff: i64 = i64::MAX;
    let mut next_nearest_target: Option<i32> = None;
    let mut i: usize = 0;
    while i < ranges.len()
        invariant
            i <= ranges.len(),
            (min_diff as int, next_nearest_target) == nearest(
                default,
                ranges@.subrange(0, i as int),
                is_max,
                *now,
            ),
        decreases ranges.len() - i,
    {
        let range = &ranges[i];
        let diff_from_from = diff_from_now(&range.from, &range.kind, now);
        let diff_from_to = diff_from_now(&range.to, &range.kind, now);
        proof {
            let head = ranges@.subrange(0, i + 1);
            assert(head.drop_last() =~= ranges@.subrange(0, i as int));
            assert(head.last() == ranges@[i as int]);
        }
        if diff_from_from <= diff_from_to {
            if diff_from_from <= min_diff {
                min_diff = diff_from_from;
                next_nearest_target = if is_max {
                    range.hpa.max_replicas
                } else {
                    range.hpa.min_replicas
                };
            }
        } else {
            if diff_from_to < min_diff {
                min_diff = diff_from_to;
                next_nearest_target = Some(default);
            }
        }
        i = i + 1;
    }
    proof {
        assert(ranges@.subrange(0, i as int) =~= ranges@);
    }
    let periods: i64 = min_diff / (RECONCILIATION_PERIOD as i64);
    let jump: i64 = if periods < 1 {
        1
    } else {
        periods
    };
    (jump, next_nearest_target)
}

/// The bound to set at the time `now`.
///
/// Where no target is known the answer is `default`; while the nearest
/// boundary is more than the ramp away it is `fallback`; otherwise it is one
/// step from `curr` toward the target and lies between the two.
pub fn step_at(curr: i32, default: i32, fallback: i32, ranges: &Vec<TimedRange>, is_max: bool, now: &Instant) -> (r: i32)
    ensures
        r == step_at_spec(curr, default, fallback, ranges@, is_max, *now),
        r == fallback || r == default || (nearest(default, ranges@, is_max, *now).1 matches Some(
            next,
        ) && between(curr as int, r as int, next as int) && named_target(
            next,
            default,
            overrides_of(ranges@),
            is_max,
        )),
{
    proof {
        target_is_named(default, ranges@, is_max, *now);
    }
    let (jump_interval, next_target) = determine_next_target_at(default, ranges, is_max, now);
    match next_target {
        None => default,
        Some(next) => {
            if jump_interval > RAMP_INTERVALS {
                fallback
            } else {
                step_toward(curr, next, jump_interval)
            }
        },
    }
}

/// What `determine_next_target` finds at a given reading of the clock.
pub open spec fn next_target_spec(default: i32, ranges: Seq<TimeRangeSpec>, is_max: bool, clock: ClockReading) -> Option<(i64, Option<i32>)> {
    match all_timed(ranges, clock) {
        Some(timed) => {
            let found = nearest(default, timed, is_max, clock.now);
            Some((jump_for(found.0) as i64, found.1))
        },
        None => None,
    }
}

/// What `step` answers at a given reading of the clock.
pub open spec fn step_spec(curr: i32, default: i32, fallback: i32, ranges: Seq<TimeRangeSpec>, is_max: bool, clock: ClockReading) -> Option<i32> {
    match all_timed(ranges, clock) {
        Some(timed) => Some(step_at_spec(curr, default, fallback, timed, is_max, clock.now) as i32),
        None => None,
    }
}

/// The number of reconciliations left before the nearest boundary of any
/// range, and the value that applies behind it, by the clock. The answer is
/// the one that belongs to some reading of the clock; it fails where an
/// endpoint of a range cannot be read.
pub fn determine_next_target(default: i32, time_range_spec: &Vec<TimeRangeSpec>, is_max: bool) -> (r: Result<(i64, Option<i32>), Error>)
    ensures
        exists|clock: ClockReading|
            answer(r) == #[trigger] next_target_spec(default, time_range_spec@, is_max, clock),
        r is Err ==> (r->Err_0 matches Error::UserInputError(text) && text@
            == UNREADABLE_TIMESTAMP@),
{
    let clock = read_clock();
    let r = match parse_ranges(time_range_spec, &clock) {
        Ok(timed) => Ok(determine_next_target_at(default, &timed, is_max, &clock.now)),
        Err(e) => Err(e),
    };
    proof {
        assert(answer(r) == next_target_spec(default, time_range_spec@, is_max, clock));
    }
    r
}

/// The bound to set now, by the clock.
///
/// The answer is the one that belongs to some reading of the clock. Whatever
/// the clock shows, it is `fallback`, `default`, or a value between `curr`
/// and a target that the schedule names. It fails where an endpoint of a
/// range cannot be read.
pub fn step(curr: i32, default: i32, fallback: i32, time_range_spec: &Vec<TimeRangeSpec>, is_max: bool) -> (r: Result<i32, Error>)
    ensures
        exists|clock: ClockReading|
            answer(r) == #[trigger] step_spec(curr, default, fallback, time_range_spec@, is_max, clock),
        r matches Ok(value) ==> value == fallback || value == default || exists|next: i32|
            #![trigger between(curr as int, value as int, next as int)]
            between(curr as int, value as int, next as int) && named_target(
                next,
                default,
                written_overrides(time_range_spec@),
                is_max,
            ),
        r is Err ==> (r->Err_0 matches Error::UserInputError(text) && text@
            == UNREADABLE_TIMESTAMP@),
{
    let clock = read_clock();
    let r = match parse_ranges(time_range_spec, &clock) {
        Ok(timed) => {
            proof {
                assert(overrides_of(timed@) =~= written_overrides(time_range_spec@));
            }
            Ok(step_at(curr, default, fallback, &timed, is_max, &clock.now))
        },
        Err(e) => Err(e),
    };
    proof {
        assert(answer(r) == step_spec(curr, default, fallback, time_range_spec@, is_max, clock));
    }
    r
}

} // verus!
