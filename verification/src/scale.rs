//! What an update writes: the configuration that the schedule asks for now,
//! and whether the live autoscaler already has it.

use crate::crd::{HpaOverrideSpec, HpaSpec, ServiceScaler};
use crate::error::{unreadable_timestamp, Error, UNREADABLE_TIMESTAMP};
use crate::hpa::{
    describes_patch, ApiError, HorizontalPodAutoscaler, HorizontalPodAutoscalerSpec,
    ResourceMetric, CPU, MEMORY, SERVICE_SCALER_MANAGED_ANNOTATION,
};
use crate::labels::{same_text, StringMap};
use crate::stepper::{step_at, step_at_spec};
use crate::time::{
    all_timed, inside_window, parse_ranges, window_open, ClockReading, Instant, TimedRange,
};
use vstd::prelude::*;
use vstd::string::*;

verus! {

/// Whether the value of the managed annotation reads `true`, in any mix of upper and lower case.
pub open spec fn reads_true(value: Seq<char>) -> bool {
    &&& value.len() == 4
    &&& (value[0] == 't' || value[0] == 'T')
    &&& (value[1] == 'r' || value[1] == 'R')
    &&& (value[2] == 'u' || value[2] == 'U')
    &&& (value[3] == 'e' || value[3] == 'E')
}

/// Whether the annotations allow the controller to write the autoscaler's
/// specification: the managed annotation is there and reads `true`.
pub open spec fn may_patch(annotations: Option<StringMap>) -> bool {
    match annotations {
        Some(map) => map@.contains_key(SERVICE_SCALER_MANAGED_ANNOTATION@) && reads_true(
            map@[SERVICE_SCALER_MANAGED_ANNOTATION@],
        ),
        None => false,
    }
}

/// The utilization target of the last metric for the named resource.
pub open spec fn utilization_of(metrics: Seq<ResourceMetric>, resource: Seq<char>) -> Option<i32>
    decreases metrics.len(),
{
    if metrics.len() == 0 {
        None
    } else if metrics.last().name@ == resource {
        metrics.last().average_utilization
    } else {
        utilization_of(metrics.drop_last(), resource)
    }
}

/// Whether a specification has the bounds and the utilization targets of `target`.
pub open spec fn converged(spec: HorizontalPodAutoscalerSpec, target: HpaOverrideSpec) -> bool {
    &&& spec.min_replicas == target.min_replicas
    &&& Some(spec.max_replicas) == target.max_replicas
    &&& utilization_of(spec.metrics@, CPU@) == target.target_cpu_utilization
    &&& utilization_of(spec.metrics@, MEMORY@) == target.target_memory_utilization
}

/// Whether an update leaves the autoscaler alone: the controller may not
/// write it, or it already has the configuration wanted.
pub open spec fn skips_patch(hpa: HorizontalPodAutoscaler, target: HpaOverrideSpec) -> bool {
    !may_patch(hpa.metadata.annotations) || converged(hpa.spec, target)
}

/// Whether the value of the managed annotation reads `true`, in any mix of upper and lower case.
pub fn is_true_text(value: &str) -> (b: bool)
    ensures
        b == reads_true(value@),
{
    if value.unicode_len() != 4 {
        return false;
    }
    let c0 = value.get_char(0);
    let c1 = value.get_char(1);
    let c2 = value.get_char(2);
    let c3 = value.get_char(3);
    (c0 == 't' || c0 == 'T') && (c1 == 'r' || c1 == 'R') && (c2 == 'u' || c2 == 'U') && (c3 == 'e'
        || c3 == 'E')
}

/// Whether the annotations allow the controller to write the autoscaler's specification.
pub fn is_managed(annotations: &Option<StringMap>) -> (b: bool)
    ensures
        b == may_patch(*annotations),
{
    match annotations {
        Some(map) => match map.get(SERVICE_SCALER_MANAGED_ANNOTATION) {
            Some(value) => is_true_text(value.as_str()),
            None => false,
        },
        None => false,
    }
}

/// The utilization target of the last metric for the named resource.
pub fn target_utilization(metrics: &Vec<ResourceMetric>, resource: &str) -> (u: Option<i32>)
    ensures
        u == utilization_of(metrics@, resource@),
{
    let mut i: usize = metrics.len();
    proof {
        assert(metrics@.subrange(0, i as int) =~= metrics@);
    }
    while i > 0
        invariant
            i <= metrics.len(),
            utilization_of(metrics@, resource@) == utilization_of(
                metrics@.subrange(0, i as int),
                resource@,
            ),
        decreases i,
    {
        proof {
            let head = metrics@.subrange(0, i as int);
            assert(head.drop_last() =~= metrics@.subrange(0, i - 1));
            assert(head.last() == metrics@[i - 1]);
        }
        i = i - 1;
        if same_text(metrics[i].name.as_str(), resource) {
            return metrics[i].average_utilization;
        }
    }
    None
}

/// Whether two optional numbers are both absent or both the same number.
pub fn same_setting(a: Option<i32>, b: Option<i32>) -> (r: bool)
    ensures
        r == (a == b),
{
    match (a, b) {
        (Some(x), Some(y)) => x == y,
        (None, None) => true,
        _ => false,
    }
}

/// Whether an update leaves the autoscaler alone.
///
/// It does so where the managed annotation is missing or does not read
/// `true`, and where the autoscaler already has the bounds and the
/// utilization targets of `target_hpa_spec`.
pub fn early_exit(hpa: &HorizontalPodAutoscaler, target_hpa_spec: &HpaOverrideSpec) -> (r: bool)
    ensures
        r == skips_patch(*hpa, *target_hpa_spec),
        !may_patch(hpa.metadata.annotations) ==> r,
{
    if !is_managed(&hpa.metadata.annotations) {
        return true;
    }
    let cpu_util = target_utilization(&hpa.spec.metrics, CPU);
    let mem_util = target_utilization(&hpa.spec.metrics, MEMORY);
    let min_replicas_equivalence = same_setting(hpa.spec.min_replicas, target_hpa_spec.min_replicas);
    let max_replicas_equivalence = same_setting(
        Some(hpa.spec.max_replicas),
        target_hpa_spec.max_replicas,
    );
    let target_cpu_util_equivalence = same_setting(cpu_util, target_hpa_spec.target_cpu_utilization);
    let target_mem_util_equivalence = same_setting(
        mem_util,
        target_hpa_spec.target_memory_utilization,
    );
    min_replicas_equivalence && max_replicas_equivalence && target_cpu_util_equivalence
        && target_mem_util_equivalence
}

/// The last range, in the order given, whose window is open.
pub open spec fn last_open(ranges: Seq<TimedRange>, now: Instant) -> Option<TimedRange>
    decreases ranges.len(),
{
    if ranges.len() == 0 {
        None
    } else if inside_window(ranges.last().from, ranges.last().to, ranges.last().kind, now) {
        Some(ranges.last())
    } else {
        last_open(ranges.drop_last(), now)
    }
}

/// A utilization target, where zero stands for none.
pub open spec fn nonzero(utilization: Option<i32>) -> Option<i32> {
    if utilization == Some(0i32) {
        None
    } else {
        utilization
    }
}

/// The first setting where there is one, else the second.
pub open spec fn or_setting(first: Option<i32>, second: Option<i32>) -> Option<i32> {
    if first is Some {
        first
    } else {
        second
    }
}

/// The override with every absent field taken from the baseline, and a
/// utilization target of zero read as none.
pub open spec fn filled(selected: HpaOverrideSpec, baseline: HpaSpec) -> HpaOverrideSpec {
    HpaOverrideSpec {
        min_replicas: or_setting(selected.min_replicas, Some(baseline.min_replicas)),
        max_replicas: or_setting(selected.max_replicas, Some(baseline.max_replicas)),
        target_cpu_utilization: nonzero(
            or_setting(selected.target_cpu_utilization, baseline.target_cpu_utilization),
        ),
        target_memory_utilization: nonzero(
            or_setting(selected.target_memory_utilization, baseline.target_memory_utilization),
        ),
    }
}

/// The configuration that applies at `now` before any stepping: that of the
/// last open range, completed from the baseline, or the baseline itself.
pub open spec fn selected_config(baseline: HpaSpec, ranges: Seq<TimedRange>, now: Instant) -> HpaOverrideSpec {
    match last_open(ranges, now) {
        Some(range) => filled(range.hpa, baseline),
        None => filled(baseline.projected(), baseline),
    }
}

/// The configuration to write at `now` onto an autoscaler whose bounds are
/// `curr_min` and `curr_max`: the bounds one step on, the utilization targets
/// as selected.
pub open spec fn resolved(baseline: HpaSpec, ranges: Seq<TimedRange>, curr_min: i32, curr_max: i32, now: Instant) -> HpaOverrideSpec {
    let selected = selected_config(baseline, ranges, now);
    HpaOverrideSpec {
        min_replicas: Some(
            step_at_spec(
                curr_min,
                baseline.min_replicas,
                selected.min_replicas->0,
                ranges,
                false,
                now,
            ) as i32,
        ),
        max_replicas: Some(
            step_at_spec(
                curr_max,
                baseline.max_replicas,
                selected.max_replicas->0,
                ranges,
                true,
                now,
            ) as i32,
        ),
        target_cpu_utilization: selected.target_cpu_utilization,
        target_memory_utilization: selected.target_memory_utilization,
    }
}

/// What an update wants: whether a window is open, and the configuration to write.
#[derive(Debug, Clone, Copy, PartialEq, Eq, Structural)]
pub struct Resolution {
    pub range_match: bool,
    pub config: HpaOverrideSpec,
}

/// The last range, in the order given, whose window is open at `now`.
pub fn find_open_range(ranges: &Vec<TimedRange>, now: &Instant) -> (found: Option<TimedRange>)
    ensures
        found == last_open(ranges@, *now),
{
    let mut i: usize = ranges.len();
    proof {
        assert(ranges@.subrange(0, i as int) =~= ranges@);
    }
    while i > 0
        invariant
            i <= ranges.len(),
            last_open(ranges@, *now) == last_open(ranges@.subrange(0, i as int), *now),
        decreases i,
    {
        proof {
            let head = ranges@.subrange(0, i as int);
            assert(head.drop_last() =~= ranges@.subrange(0, i - 1));
            assert(head.last() == ranges@[i - 1]);
        }
        i = i - 1;
        if window_open(&ranges[i].from, &ranges[i].to, &ranges[i].kind, now) {
            return Some(ranges[i]);
        }
    }
    None
}

/// A utilization target, with zero read as none.
pub fn drop_zero(utilization: Option<i32>) -> (r: Option<i32>)
    ensures
        r == nonzero(utilization),
{
    match utilization {
        Some(value) => if value == 0 {
            None
        } else {
            Some(value)
        },
        None => None,
    }
}

/// Completes an override from the baseline.
pub fn fill_from_baseline(selected: &HpaOverrideSpec, baseline: &HpaSpec) -> (r: HpaOverrideSpec)
    ensures
        r == filled(*selected, *baseline),
        r.min_replicas is Some,
        r.max_replicas is Some,
{
    HpaOverrideSpec {
        min_replicas: match selected.min_replicas {
            Some(min) => Some(min),
            None => Some(baseline.min_replicas),
        },
        max_replicas: match selected.max_replicas {
            Some(max) => Some(max),
            None => Some(baseline.max_replicas),
        },
        target_cpu_utilization: drop_zero(
            match selected.target_cpu_utilization {
                Some(cpu) => Some(cpu),
                None => baseline.target_cpu_utilization,
            },
        ),
        target_memory_utilization: drop_zero(
            match selected.target_memory_utilization {
                Some(memory) => Some(memory),
                None => baseline.target_memory_utilization,
            },
        ),
    }
}

/// Works out what to write at `now` onto an autoscaler whose bounds are
/// `curr_min` and `curr_max`.
///
/// The last open range decides the configuration; fields it leaves out come
/// from the baseline, and so does everything when no range is open. The
/// bounds are then stepped from the live ones; the utilization targets are
/// taken as they are.
pub fn resolve_override(baseline: &HpaSpec, ranges: &Vec<TimedRange>, curr_min: i32, curr_max: i32, now: &Instant) -> (r: Resolution)
    ensures
        r.range_match == last_open(ranges@, *now) is Some,
        r.config == resolved(*baseline, ranges@, curr_min, curr_max, *now),
        r.config.min_replicas is Some,
        r.config.max_replicas is Some,
{
    let open = find_open_range(ranges, now);
    let selected = match open {
        Some(range) => fill_from_baseline(&range.hpa, baseline),
        None => fill_from_baseline(&baseline.as_override(), baseline),
    };
    let fallback_min = match selected.min_replicas {
        Some(min) => min,
        None => baseline.min_replicas,
    };
    let fallback_max = match selected.max_replicas {
        Some(max) => max,
        None => baseline.max_replicas,
    };
    let min = step_at(curr_min, baseline.min_replicas, fallback_min, ranges, false, now);
    let max = step_at(curr_max, baseline.max_replicas, fallback_max, ranges, true, now);
    Resolution {
        range_match: open.is_some(),
        config: HpaOverrideSpec {
            min_replicas: Some(min),
            max_replicas: Some(max),
            target_cpu_utilization: selected.target_cpu_utilization,
            target_memory_utilization: selected.target_memory_utilization,
        },
    }
}

/// Text of the failure for an autoscaler without a lower bound.
pub const MISSING_MIN_REPLICAS: &'static str = "the autoscaler has no minReplicas";

/// What an update does with the live autoscaler.
#[derive(Debug, Clone)]
pub enum Decision {
    /// Leave the autoscaler as it is; only the status is written.
    NoOp(Resolution),
    /// Patch the autoscaler with this specification; then the status is written.
    Patch(Resolution, HorizontalPodAutoscalerSpec),
}

/// A configuration that names both bounds, in the shape of a baseline: what a patch writes.
pub open spec fn config_of(target: HpaOverrideSpec) -> HpaSpec {
    HpaSpec {
        min_replicas: target.min_replicas->0,
        max_replicas: target.max_replicas->0,
        target_cpu_utilization: target.target_cpu_utilization,
        target_memory_utilization: target.target_memory_utilization,
    }
}

/// What an update resolves for an autoscaler whose lower bound is
/// `curr_min`, at a clock reading under which the ranges read as `ranges`.
pub open spec fn resolution_at(
    service_scaler: ServiceScaler,
    hpa: HorizontalPodAutoscaler,
    ranges: Seq<TimedRange>,
    curr_min: i32,
    clock: ClockReading,
) -> Resolution {
    Resolution {
        range_match: last_open(ranges, clock.now) is Some,
        config: resolved(service_scaler.spec.hpa, ranges, curr_min, hpa.spec.max_replicas, clock.now),
    }
}

/// Whether `outcome` is what an update decides for the live autoscaler `hpa`.
///
/// An endpoint that cannot be read is an error of the `ServiceScaler`, an
/// autoscaler without a lower bound a failure without a status code.
/// Otherwise the configuration for the moment is resolved from the live
/// bounds, and the autoscaler is patched with it unless it may not be written
/// or already has it.
pub open spec fn decides(
    service_scaler: ServiceScaler,
    hpa: HorizontalPodAutoscaler,
    clock: ClockReading,
    outcome: Result<Decision, Error>,
) -> bool {
    match all_timed(service_scaler.spec.time_range_spec@, clock) {
        None => outcome matches Err(Error::UserInputError(text)) && text@ == UNREADABLE_TIMESTAMP@,
        Some(ranges) => match hpa.spec.min_replicas {
            None => {
                &&& outcome matches Err(Error::KubeError { source })
                &&& source.code is None
                &&& source.message@ == MISSING_MIN_REPLICAS@
            },
            Some(curr_min) => {
                let resolution = resolution_at(service_scaler, hpa, ranges, curr_min, clock);
                if skips_patch(hpa, resolution.config) {
                    outcome matches Ok(Decision::NoOp(r)) && r == resolution
                } else {
                    &&& outcome matches Ok(Decision::Patch(r, spec))
                    &&& r == resolution
                    &&& describes_patch(spec, service_scaler.metadata.name@, config_of(resolution.config))
                }
            },
        },
    }
}

/// Decides what an update does with the live autoscaler, at the given reading of the clock.
pub fn act(service_scaler: &ServiceScaler, hpa: &HorizontalPodAutoscaler, clock: &ClockReading) -> (outcome: Result<Decision, Error>)
    ensures
        decides(*service_scaler, *hpa, *clock, outcome),
{
    let ranges = match parse_ranges(&service_scaler.spec.time_range_spec, clock) {
        Ok(ranges) => ranges,
        Err(_) => {
            return Err(unreadable_timestamp());
        },
    };
    let curr_min = match hpa.spec.min_replicas {
        Some(curr_min) => curr_min,
        None => {
            return Err(
                Error::KubeError {
                    source: ApiError { code: None, message: MISSING_MIN_REPLICAS.to_owned() },
                },
            );
        },
    };
    let resolution = resolve_override(
        &service_scaler.spec.hpa,
        &ranges,
        curr_min,
        hpa.spec.max_replicas,
        &clock.now,
    );
    if early_exit(hpa, &resolution.config) {
        Ok(Decision::NoOp(resolution))
    } else {
        let min_replicas = match resolution.config.min_replicas {
            Some(min) => min,
            None => curr_min,
        };
        let max_replicas = match resolution.config.max_replicas {
            Some(max) => max,
            None => hpa.spec.max_replicas,
        };
        let config = HpaSpec {
            min_replicas,
            max_replicas,
            target_cpu_utilization: resolution.config.target_cpu_utilization,
            target_memory_utilization: resolution.config.target_memory_utilization,
        };
        let spec = crate::hpa::patch(service_scaler.metadata.name.as_str(), &config);
        Ok(Decision::Patch(resolution, spec))
    }
}

} // verus!
