//! What holds of the controller's decisions whatever the inputs.

use crate::crd::{HpaOverrideSpec, HpaSpec, ServiceScaler};
use crate::error::Error;
use crate::hpa::{
    after_patch, deletion_succeeded, describes_patch, metric_targets, patched_metrics, ApiError,
    HorizontalPodAutoscaler, HorizontalPodAutoscalerSpec, ResourceMetric, CPU, MEMORY,
    SERVICE_SCALER_MANAGED_ANNOTATION,
};
use crate::reconcile::{
    advances, classified, deletion_outcome, failure_of, with_hpa, Action, Purpose, Request,
    Response, ServiceScalerAction, State,
};
use crate::scale::{
    config_of, converged, filled, may_patch, resolution_at, resolved, selected_config,
    skips_patch, utilization_of, Resolution,
};
use crate::status::describes_status;
use crate::stepper::{
    between, jump_for, lemma_step_stays_between, nearest, step_at_spec, stepped, RAMP_INTERVALS,
    RECONCILIATION_PERIOD,
};
use crate::time::{
    all_timed, div_toward_zero, seconds_until, status_stamp, ClockReading, Instant, TimedRange,
};
use vstd::prelude::*;

verus! {

/// The bound that the stepper sets is the fallback, the default, or a value
/// in the closed interval between the current bound and the target.
pub proof fn step_stays_in_range(curr: i32, default: i32, fallback: i32, ranges: Seq<TimedRange>, is_max: bool, now: Instant)
    ensures
        ({
            let r = step_at_spec(curr, default, fallback, ranges, is_max, now);
            let target = nearest(default, ranges, is_max, now).1;
            ||| r == fallback
            ||| r == default
            ||| (target matches Some(next) && between(curr as int, r, next as int))
        }),
{
    let found = nearest(default, ranges, is_max, now);
    match found.1 {
        Some(next) => {
            lemma_step_stays_between(curr as int, next as int, jump_for(found.0));
        },
        None => {},
    }
}

/// The metrics that a patch writes give each resource the utilization
/// target of the configuration, and no target where it names none.
pub proof fn patched_metrics_carry_targets(metrics: Seq<ResourceMetric>, config: HpaSpec)
    requires
        metric_targets(metrics) == patched_metrics(config),
    ensures
        utilization_of(metrics, CPU@) == config.target_cpu_utilization,
        utilization_of(metrics, MEMORY@) == config.target_memory_utilization,
{
    reveal_strlit("cpu");
    reveal_strlit("memory");
    assert(CPU@.len() != MEMORY@.len());
    let targets = metric_targets(metrics);
    assert forall|i: int| 0 <= i < metrics.len() implies targets[i] == (
        (#[trigger] metrics[i]).name@,
        metrics[i].average_utilization,
    ) by {}
    reveal_with_fuel(utilization_of, 3);
    if config.target_memory_utilization is Some && config.target_cpu_utilization is Some {
        assert(patched_metrics(config).len() == 2);
    }
}

/// Once the patch for a resolved override has been applied, the autoscaler
/// has converged on it: the next update leaves it alone.
pub proof fn patch_then_early_exit(hpa: HorizontalPodAutoscaler, target: HpaOverrideSpec, patch: HorizontalPodAutoscalerSpec)
    requires
        target.min_replicas is Some,
        target.max_replicas is Some,
        describes_patch(patch, hpa.metadata.name@, config_of(target)),
    ensures
        converged(after_patch(hpa, patch).spec, target),
        skips_patch(after_patch(hpa, patch), target),
{
    patched_metrics_carry_targets(patch.metrics@, config_of(target));
}

/// A patch is idempotent: applied to an autoscaler that has it already, it
/// changes nothing.
pub proof fn patch_is_idempotent(hpa: HorizontalPodAutoscaler, patch: HorizontalPodAutoscalerSpec)
    ensures
        after_patch(after_patch(hpa, patch), patch) == after_patch(hpa, patch),
{
}

/// Rounding a quotient toward zero keeps the order of the numerators, and
/// moves the quotient by no more than the numerator moved.
pub proof fn division_keeps_order(low: int, high: int, divisor: int)
    requires
        low <= high,
        divisor >= 1,
    ensures
        div_toward_zero(low, divisor) <= div_toward_zero(high, divisor),
        div_toward_zero(high, divisor) - div_toward_zero(low, divisor) <= high - low,
    decreases high - low,
{
    if low < high {
        division_keeps_order(low, high - 1, divisor);
        if high >= 1 {
            let w = high - 1;
            assert(w / divisor <= (w + 1) / divisor <= w / divisor + 1) by (nonlinear_arith)
                requires
                    w >= 0,
                    divisor >= 1,
            ;
        } else {
            let w = -high;
            assert(w / divisor <= (w + 1) / divisor <= w / divisor + 1) by (nonlinear_arith)
                requires
                    w >= 0,
                    divisor >= 1,
            ;
        }
    }
}

/// A step keeps the order of two bounds: from a lower value toward a lower
/// target it ends no higher than from a higher value toward a higher target.
pub proof fn step_keeps_order(low: int, high: int, low_target: int, high_target: int, jump: int)
    requires
        low <= high,
        low_target <= high_target,
        jump >= 1,
    ensures
        stepped(low, low_target, jump) <= stepped(high, high_target, jump),
{
    division_keeps_order(low_target - low, high_target - low, jump);
    division_keeps_order(high_target - high, high_target - low, jump);
}

/// The lower and the upper bound find the same boundary: the distance is the
/// same, and the two targets are both missing, both from the baseline, or
/// both from one range.
pub proof fn bounds_share_target(baseline: HpaSpec, ranges: Seq<TimedRange>, now: Instant)
    ensures
        ({
            let low = nearest(baseline.min_replicas, ranges, false, now);
            let high = nearest(baseline.max_replicas, ranges, true, now);
            &&& low.0 == high.0
            &&& {
                ||| low.1 is None && high.1 is None
                ||| low.1 == Some(baseline.min_replicas) && high.1 == Some(baseline.max_replicas)
                ||| exists|i: int|
                    0 <= i < ranges.len() && low.1 == (#[trigger] ranges[i]).hpa.min_replicas
                        && high.1 == ranges[i].hpa.max_replicas
            }
        }),
    decreases ranges.len(),
{
    if ranges.len() > 0 {
        let front = ranges.drop_last();
        bounds_share_target(baseline, front, now);
        let last = ranges.len() - 1;
        let range = ranges[last];
        let low_before = nearest(baseline.min_replicas, front, false, now);
        let high_before = nearest(baseline.max_replicas, front, true, now);
        let to_start = seconds_until(range.from, range.kind, now);
        let to_end = seconds_until(range.to, range.kind, now);
        let replaced = if to_start <= to_end {
            to_start <= low_before.0
        } else {
            to_end < low_before.0
        };
        if replaced {
            if to_start <= to_end {
                assert(nearest(baseline.min_replicas, ranges, false, now).1
                    == ranges[last].hpa.min_replicas);
                assert(nearest(baseline.max_replicas, ranges, true, now).1
                    == ranges[last].hpa.max_replicas);
            }
        } else {
            if exists|i: int|
                0 <= i < front.len() && low_before.1 == (#[trigger] front[i]).hpa.min_replicas
                    && high_before.1 == front[i].hpa.max_replicas {
                let i = choose|i: int|
                    0 <= i < front.len() && low_before.1 == (#[trigger] front[i]).hpa.min_replicas
                        && high_before.1 == front[i].hpa.max_replicas;
                assert(ranges[i] == front[i]);
            }
        }
    }
}

/// Whether an override names one of the two bounds and not the other.
pub open spec fn names_one_bound(hpa: HpaOverrideSpec) -> bool {
    hpa.min_replicas is Some != hpa.max_replicas is Some
}

/// Whether the lower bound of a configuration is at most its upper bound.
pub open spec fn ordered(config: HpaOverrideSpec) -> bool {
    config.min_replicas is Some && config.max_replicas is Some && config.min_replicas->0
        <= config.max_replicas->0
}

/// The configuration of the last open range, completed from the baseline, is
/// ordered where that of every range is.
pub proof fn selected_is_ordered(baseline: HpaSpec, ranges: Seq<TimedRange>, now: Instant)
    requires
        baseline.min_replicas <= baseline.max_replicas,
        forall|i: int| 0 <= i < ranges.len() ==> ordered(filled((#[trigger] ranges[i]).hpa, baseline)),
    ensures
        ordered(selected_config(baseline, ranges, now)),
    decreases ranges.len(),
{
    if ranges.len() > 0 {
        let last = ranges.len() - 1;
        assert(ordered(filled(ranges[last].hpa, baseline)));
        let front = ranges.drop_last();
        assert forall|i: int| 0 <= i < front.len() implies ordered(
            filled((#[trigger] front[i]).hpa, baseline),
        ) by {
            assert(front[i] == ranges[i]);
        }
        selected_is_ordered(baseline, front, now);
    }
}

/// Whether the interval of a configuration shares a value with that of the baseline.
pub open spec fn overlaps(config: HpaOverrideSpec, baseline: HpaSpec) -> bool {
    &&& config.min_replicas is Some
    &&& config.max_replicas is Some
    &&& config.min_replicas->0 <= baseline.max_replicas
    &&& baseline.min_replicas <= config.max_replicas->0
}

/// The configuration of the last open range, completed from the baseline,
/// overlaps the baseline where that of every range does.
pub proof fn selected_overlaps(baseline: HpaSpec, ranges: Seq<TimedRange>, now: Instant)
    requires
        baseline.min_replicas <= baseline.max_replicas,
        forall|i: int|
            0 <= i < ranges.len() ==> overlaps(filled((#[trigger] ranges[i]).hpa, baseline), baseline),
    ensures
        overlaps(selected_config(baseline, ranges, now), baseline),
    decreases ranges.len(),
{
    if ranges.len() > 0 {
        let last = ranges.len() - 1;
        assert(overlaps(filled(ranges[last].hpa, baseline), baseline));
        let front = ranges.drop_last();
        assert forall|i: int| 0 <= i < front.len() implies overlaps(
            filled((#[trigger] front[i]).hpa, baseline),
            baseline,
        ) by {
            assert(front[i] == ranges[i]);
        }
        selected_overlaps(baseline, front, now);
    }
}

/// The bounds that an update resolves are ordered: the lower one is at most
/// the upper one.
///
/// This holds where the baseline is ordered, the live autoscaler is, and so
/// is every override once the baseline has filled what it leaves out. Where
/// an override names one bound only, the bound left out goes to the baseline
/// at once while the other follows the schedule; then the live bounds, and
/// the bounds of every range, must besides overlap the baseline's.
pub proof fn resolved_bounds_are_ordered(baseline: HpaSpec, ranges: Seq<TimedRange>, curr_min: i32, curr_max: i32, now: Instant)
    requires
        baseline.min_replicas <= baseline.max_replicas,
        curr_min <= curr_max,
        forall|i: int| 0 <= i < ranges.len() ==> ordered(filled((#[trigger] ranges[i]).hpa, baseline)),
        (exists|i: int| 0 <= i < ranges.len() && names_one_bound((#[trigger] ranges[i]).hpa)) ==> {
            &&& curr_min <= baseline.max_replicas
            &&& baseline.min_replicas <= curr_max
            &&& forall|i: int|
                0 <= i < ranges.len() ==> overlaps(
                    filled((#[trigger] ranges[i]).hpa, baseline),
                    baseline,
                )
        },
    ensures
        ordered(resolved(baseline, ranges, curr_min, curr_max, now)),
{
    let selected = selected_config(baseline, ranges, now);
    selected_is_ordered(baseline, ranges, now);
    bounds_share_target(baseline, ranges, now);
    step_stays_in_range(
        curr_min,
        baseline.min_replicas,
        selected.min_replicas->0,
        ranges,
        false,
        now,
    );
    step_stays_in_range(curr_max, baseline.max_replicas, selected.max_replicas->0, ranges, true, now);
    let low = nearest(baseline.min_replicas, ranges, false, now);
    let high = nearest(baseline.max_replicas, ranges, true, now);
    let jump = jump_for(low.0);
    match (low.1, high.1) {
        (Some(low_target), Some(high_target)) => {
            if jump <= RAMP_INTERVALS {
                lemma_step_stays_between(curr_min as int, low_target as int, jump);
                lemma_step_stays_between(curr_max as int, high_target as int, jump);
                if low_target <= high_target {
                    step_keeps_order(
                        curr_min as int,
                        curr_max as int,
                        low_target as int,
                        high_target as int,
                        jump,
                    );
                } else {
                    // the targets come from one range, and that range is ordered
                    let i = choose|i: int|
                        0 <= i < ranges.len() && low.1 == (#[trigger] ranges[i]).hpa.min_replicas
                            && high.1 == ranges[i].hpa.max_replicas;
                    assert(ordered(filled(ranges[i].hpa, baseline)));
                }
            }
        },
        (None, Some(high_target)) => {
            let i = choose|i: int|
                0 <= i < ranges.len() && low.1 == (#[trigger] ranges[i]).hpa.min_replicas && high.1
                    == ranges[i].hpa.max_replicas;
            assert(names_one_bound(ranges[i].hpa));
            assert(ordered(filled(ranges[i].hpa, baseline)));
            selected_overlaps(baseline, ranges, now);
            if jump <= RAMP_INTERVALS {
                lemma_step_stays_between(curr_max as int, high_target as int, jump);
            }
        },
        (Some(low_target), None) => {
            let i = choose|i: int|
                0 <= i < ranges.len() && low.1 == (#[trigger] ranges[i]).hpa.min_replicas && high.1
                    == ranges[i].hpa.max_replicas;
            assert(names_one_bound(ranges[i].hpa));
            assert(ordered(filled(ranges[i].hpa, baseline)));
            selected_overlaps(baseline, ranges, now);
            if jump <= RAMP_INTERVALS {
                lemma_step_stays_between(curr_min as int, low_target as int, jump);
            }
        },
        (None, None) => {},
    }
}

/// Whether the value of the managed annotation reads `false`, in any mix of upper and lower case.
pub open spec fn reads_false(value: Seq<char>) -> bool {
    &&& value.len() == 5
    &&& (value[0] == 'f' || value[0] == 'F')
    &&& (value[1] == 'a' || value[1] == 'A')
    &&& (value[2] == 'l' || value[2] == 'L')
    &&& (value[3] == 's' || value[3] == 'S')
    &&& (value[4] == 'e' || value[4] == 'E')
}

/// An autoscaler whose managed annotation reads `false` is left alone,
/// however far it is from the configuration wanted.
pub proof fn kill_switch_skips_patch(hpa: HorizontalPodAutoscaler, target: HpaOverrideSpec)
    requires
        hpa.metadata.annotations is Some,
        hpa.metadata.annotations->0@.contains_key(SERVICE_SCALER_MANAGED_ANNOTATION@),
        reads_false(hpa.metadata.annotations->0@[SERVICE_SCALER_MANAGED_ANNOTATION@]),
    ensures
        skips_patch(hpa, target),
{
}

/// An autoscaler without the managed annotation is left alone: the
/// controller does not take over what it has not marked.
pub proof fn missing_annotation_skips_patch(hpa: HorizontalPodAutoscaler, target: HpaOverrideSpec)
    requires
        hpa.metadata.annotations is None || !hpa.metadata.annotations->0@.contains_key(
            SERVICE_SCALER_MANAGED_ANNOTATION@,
        ),
    ensures
        skips_patch(hpa, target),
{
}

/// An update never patches the specification of an autoscaler that it may
/// not write, whatever the schedule asks for.
pub proof fn unmanaged_hpa_is_not_patched(
    service_scaler: ServiceScaler,
    hpa: HorizontalPodAutoscaler,
    purpose: Purpose,
    clock: ClockReading,
    next: State,
    request: Option<Request>,
)
    requires
        !may_patch(hpa.metadata.annotations),
        with_hpa(service_scaler, hpa, purpose, clock, next, request),
    ensures
        !(request matches Some(Request::PatchHpaSpec(_))),
        !(next is PatchingHpa),
{
}

/// An update that finds the autoscaler at the configuration resolved for it
/// writes the status and nothing else: it asks for the `ServiceScaler` to
/// write its status, and the specification of the autoscaler is not patched.
pub proof fn converged_update_writes_status_only(
    service_scaler: ServiceScaler,
    hpa: HorizontalPodAutoscaler,
    clock: ClockReading,
    next: State,
    request: Option<Request>,
)
    requires
        all_timed(service_scaler.spec.time_range_spec@, clock) is Some,
        hpa.spec.min_replicas is Some,
        converged(
            hpa.spec,
            resolution_at(
                service_scaler,
                hpa,
                all_timed(service_scaler.spec.time_range_spec@, clock)->0,
                hpa.spec.min_replicas->0,
                clock,
            ).config,
        ),
        with_hpa(service_scaler, hpa, Purpose::Update, clock, next, request),
    ensures
        request == Some(Request::GetServiceScaler),
        next == (State::ReadingScaler {
            resolution: resolution_at(
                service_scaler,
                hpa,
                all_timed(service_scaler.spec.time_range_spec@, clock)->0,
                hpa.spec.min_replicas->0,
                clock,
            ),
            patch_failure: None,
        }),
{
}

/// The status that follows a converged update reports the configuration
/// resolved and whether a window was open.
pub proof fn status_follows_update(
    service_scaler: ServiceScaler,
    resolution: Resolution,
    patch_failure: Option<ApiError>,
    observed: ServiceScaler,
    clock: ClockReading,
    next: State,
    request: Option<Request>,
)
    requires
        status_stamp(clock) is Some,
        advances(
            service_scaler,
            State::ReadingScaler { resolution, patch_failure },
            Some(Response::ServiceScaler(observed)),
            clock,
            next,
            request,
        ),
    ensures
        request matches Some(Request::PatchStatus(status)) && describes_status(
            status,
            resolution.range_match,
            observed,
            resolution.config,
            clock,
        ),
{
}

/// An upper bound on the number of steps that a reconciliation standing at
/// `state` still takes.
pub open spec fn steps_left(state: State) -> nat {
    match state {
        State::Init => 9,
        State::AddingFinalizer => 8,
        State::FetchingHpa => 8,
        State::LookingUpHpa { purpose } => 7,
        State::CreatingHpa { purpose } => 6,
        State::Annotating { existing, purpose } => 5,
        State::LabellingHpa { created, purpose } => 5,
        State::PatchingHpa { resolution } => 3,
        State::ReadingScaler { resolution, patch_failure } => 2,
        State::DeletingHpa => 2,
        State::WritingStatus { patch_failure } => 1,
        State::RemovingFinalizer => 1,
        State::DisablingScaling => 1,
        State::Finished { result, warning } => 0,
    }
}

/// Every step brings a reconciliation closer to its end, whatever the
/// cluster answers: it is over after nine requests at most.
pub proof fn every_step_comes_closer_to_the_end(
    service_scaler: ServiceScaler,
    state: State,
    response: Option<Response>,
    clock: ClockReading,
    next: State,
    request: Option<Request>,
)
    requires
        advances(service_scaler, state, response, clock, next, request),
        !(state is Finished),
    ensures
        steps_left(next) < steps_left(state),
        steps_left(next) == 0 <==> request is None,
{
}

/// What the laws on whole reconciliations track of the cluster: whether the
/// autoscaler exists, and whether the `ServiceScaler` carries a finalizer.
pub struct Cluster {
    pub has_hpa: bool,
    pub has_finalizer: bool,
}

/// The cluster after it has carried out a request.
pub open spec fn effect(cluster: Cluster, request: Option<Request>) -> Cluster {
    match request {
        Some(Request::PatchFinalizers(list)) => Cluster {
            has_hpa: cluster.has_hpa,
            has_finalizer: list is Some && list->0@.len() > 0,
        },
        Some(Request::CreateHpa(_)) => Cluster {
            has_hpa: true,
            has_finalizer: cluster.has_finalizer,
        },
        Some(Request::DeleteHpa) => Cluster {
            has_hpa: false,
            has_finalizer: cluster.has_finalizer,
        },
        _ => cluster,
    }
}

/// Every request is idempotent: carried out a second time, it leaves the
/// cluster as the first time did.
pub proof fn requests_are_idempotent(cluster: Cluster, request: Option<Request>)
    ensures
        effect(effect(cluster, request), request) == effect(cluster, request),
{
}

/// Whether `response` is an answer of a cluster that carries out what it is
/// asked: it reports an autoscaler exactly where there is one, returns the
/// objects it creates, patches or reads, and fails a deletion at most
/// because the object was already gone.
pub open spec fn answered(cluster: Cluster, request: Option<Request>, response: Option<Response>) -> bool {
    match request {
        None => true,
        Some(Request::GetHpa) => (response matches Some(Response::Hpa(_))) == cluster.has_hpa,
        Some(Request::CreateHpa(_)) => response matches Some(Response::Hpa(_)),
        Some(Request::PatchHpaSpec(_)) => response matches Some(Response::Hpa(_)),
        Some(Request::GetServiceScaler) => response matches Some(Response::ServiceScaler(_)),
        Some(Request::DeleteHpa) => deletion_succeeded(deletion_outcome(response)),
        _ => failure_of(response) is None,
    }
}

/// Whether a reconciliation that stands at `state` with the answer
/// `response`, on the cluster `cluster`, can stand at `end` on the cluster
/// `after` once `steps` more steps have been taken, each with some reading of
/// the clock and each request carried out and answered by the cluster.
pub open spec fn runs(
    service_scaler: ServiceScaler,
    state: State,
    response: Option<Response>,
    cluster: Cluster,
    steps: nat,
    end: State,
    after: Cluster,
) -> bool
    decreases steps,
{
    if steps == 0 {
        state == end && cluster == after
    } else {
        exists|clock: ClockReading, next: State, request: Option<Request>, answer: Option<Response>|
            #![trigger advances(service_scaler, state, response, clock, next, request), answered(cluster, request, answer)]
            {
                &&& advances(service_scaler, state, response, clock, next, request)
                &&& answered(cluster, request, answer)
                &&& runs(
                    service_scaler,
                    next,
                    answer,
                    effect(cluster, request),
                    (steps - 1) as nat,
                    end,
                    after,
                )
            }
    }
}

/// Where the creation of the objects of a new `ServiceScaler` can stand on a
/// cluster that answers, and the number of steps it is from its end.
pub open spec fn creating(state: State, response: Option<Response>, cluster: Cluster) -> Option<nat> {
    match state {
        State::Init => Some(5nat),
        State::AddingFinalizer => if cluster.has_finalizer && failure_of(response) is None {
            Some(4nat)
        } else {
            None
        },
        State::LookingUpHpa { purpose: Purpose::Create } => if cluster.has_finalizer && (
        response matches Some(Response::Hpa(_))) == cluster.has_hpa {
            Some(3nat)
        } else {
            None
        },
        State::CreatingHpa { purpose: Purpose::Create } => if cluster.has_finalizer
            && cluster.has_hpa && response matches Some(Response::Hpa(_)) {
            Some(2nat)
        } else {
            None
        },
        State::Annotating { existing, purpose: Purpose::Create } => if cluster.has_finalizer
            && cluster.has_hpa && failure_of(response) is None {
            Some(1nat)
        } else {
            None
        },
        State::LabellingHpa { created, purpose: Purpose::Create } => if cluster.has_finalizer
            && cluster.has_hpa && failure_of(response) is None {
            Some(1nat)
        } else {
            None
        },
        State::Finished { result, warning } => if cluster.has_finalizer && cluster.has_hpa
            && result == Ok::<Action, Error>(Action::Requeue(RECONCILIATION_PERIOD)) {
            Some(0nat)
        } else {
            None
        },
        _ => None,
    }
}

/// Where the removal of the objects of a deleted `ServiceScaler` can stand
/// on a cluster that answers, and the number of steps it is from its end.
pub open spec fn deleting(state: State, response: Option<Response>, cluster: Cluster) -> Option<nat> {
    match state {
        State::Init => Some(3nat),
        State::DeletingHpa => if !cluster.has_hpa && deletion_succeeded(deletion_outcome(response)) {
            Some(2nat)
        } else {
            None
        },
        State::RemovingFinalizer => if !cluster.has_hpa && !cluster.has_finalizer && failure_of(
            response,
        ) is None {
            Some(1nat)
        } else {
            None
        },
        State::Finished { result, warning } => if !cluster.has_hpa && !cluster.has_finalizer
            && result == Ok::<Action, Error>(Action::AwaitChange) {
            Some(0nat)
        } else {
            None
        },
        _ => None,
    }
}

/// On a cluster that answers, the reconciliation of a new `ServiceScaler`
/// ends within five steps, with the autoscaler and the finalizer in place and
/// the object due again after the period.
pub proof fn creation_completes(
    service_scaler: ServiceScaler,
    state: State,
    response: Option<Response>,
    cluster: Cluster,
    steps: nat,
    end: State,
    after: Cluster,
)
    requires
        service_scaler.metadata.namespace is Some,
        classified(service_scaler) == ServiceScalerAction::Create,
        creating(state, response, cluster) is Some,
        creating(state, response, cluster)->0 <= steps,
        runs(service_scaler, state, response, cluster, steps, end, after),
    ensures
        end matches State::Finished { result, warning } && result == Ok::<Action, Error>(
            Action::Requeue(RECONCILIATION_PERIOD),
        ),
        after.has_hpa,
        after.has_finalizer,
    decreases steps,
{
    if steps > 0 {
        let (clock, next, request, answer) = choose|
            clock: ClockReading,
            next: State,
            request: Option<Request>,
            answer: Option<Response>,
        |
            #![trigger advances(service_scaler, state, response, clock, next, request), answered(cluster, request, answer)]
            {
                &&& advances(service_scaler, state, response, clock, next, request)
                &&& answered(cluster, request, answer)
                &&& runs(
                    service_scaler,
                    next,
                    answer,
                    effect(cluster, request),
                    (steps - 1) as nat,
                    end,
                    after,
                )
            };
        let then = effect(cluster, request);
        assert(creating(next, answer, then) is Some);
        assert(creating(next, answer, then)->0 <= steps - 1);
        creation_completes(service_scaler, next, answer, then, (steps - 1) as nat, end, after);
    }
}

/// On a cluster that answers, the reconciliation of a deleted
/// `ServiceScaler` ends within three steps, with neither the autoscaler nor
/// the finalizer left, and waits for the next change.
pub proof fn deletion_completes(
    service_scaler: ServiceScaler,
    state: State,
    response: Option<Response>,
    cluster: Cluster,
    steps: nat,
    end: State,
    after: Cluster,
)
    requires
        service_scaler.metadata.namespace is Some,
        classified(service_scaler) == ServiceScalerAction::Delete,
        deleting(state, response, cluster) is Some,
        deleting(state, response, cluster)->0 <= steps,
        runs(service_scaler, state, response, cluster, steps, end, after),
    ensures
        end matches State::Finished { result, warning } && result == Ok::<Action, Error>(
            Action::AwaitChange,
        ),
        !after.has_hpa,
        !after.has_finalizer,
    decreases steps,
{
    if steps > 0 {
        let (clock, next, request, answer) = choose|
            clock: ClockReading,
            next: State,
            request: Option<Request>,
            answer: Option<Response>,
        |
            #![trigger advances(service_scaler, state, response, clock, next, request), answered(cluster, request, answer)]
            {
                &&& advances(service_scaler, state, response, clock, next, request)
                &&& answered(cluster, request, answer)
                &&& runs(
                    service_scaler,
                    next,
                    answer,
                    effect(cluster, request),
                    (steps - 1) as nat,
                    end,
                    after,
                )
            };
        let then = effect(cluster, request);
        assert(deleting(next, answer, then) is Some);
        assert(deleting(next, answer, then)->0 <= steps - 1);
        deletion_completes(service_scaler, next, answer, then, (steps - 1) as nat, end, after);
    }
}

/// Creation followed by deletion leaves no autoscaler and no finalizer.
///
/// A new `ServiceScaler` is reconciled on a cluster that answers; later the
/// object, by then marked for deletion, is reconciled again. After the first
/// reconciliation the autoscaler exists and the finalizer is set; after the
/// second both are gone.
pub proof fn create_then_delete_leaves_nothing(
    created: ServiceScaler,
    deleted: ServiceScaler,
    before: Cluster,
    first_end: State,
    between: Cluster,
    second_end: State,
    after: Cluster,
)
    requires
        created.metadata.namespace is Some,
        classified(created) == ServiceScalerAction::Create,
        deleted.metadata.namespace is Some,
        classified(deleted) == ServiceScalerAction::Delete,
        runs(created, State::Init, None, before, 5, first_end, between),
        runs(deleted, State::Init, None, between, 3, second_end, after),
    ensures
        between.has_hpa && between.has_finalizer,
        !after.has_hpa && !after.has_finalizer,
        second_end matches State::Finished { result, warning } && result == Ok::<Action, Error>(
            Action::AwaitChange,
        ),
{
    creation_completes(created, State::Init, None, before, 5, first_end, between);
    deletion_completes(deleted, State::Init, None, between, 3, second_end, after);
}

} // verus!
