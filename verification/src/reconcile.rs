//! One reconciliation of a `ServiceScaler`, as a sequence of calls to the
//! cluster.
//!
//! The caller owns the connection. It starts from `State::Init`, hands each
//! answer of the cluster to `reconcile`, performs the request it gets back on
//! the objects named like the `ServiceScaler`, and stops when there is none.

use crate::crd::{ServiceScaler, ServiceScalerStatus};
use crate::error::{Error, MISSING_NAMESPACE};
use crate::hpa::{
    deletion_succeeded, describes_new, marker_annotations, merged_labels, ApiError,
    HorizontalPodAutoscaler, HorizontalPodAutoscalerSpec,
};
use crate::labels::StringMap;
use crate::scale::{act, decides, Decision, Resolution};
use crate::status::{describes_status, patch_status};
use crate::stepper::RECONCILIATION_PERIOD;
use crate::time::{status_stamp, ClockReading};
use vstd::prelude::*;
use vstd::string::*;

verus! {

/// Text of the failure for an answer that does not fit the request.
pub const UNEXPECTED_ANSWER: &'static str = "the answer does not fit the request";

/// Text of the failure for a clock reading that cannot be printed.
pub const UNPRINTABLE_TIME: &'static str = "the time of the update cannot be printed";

/// What an observed `ServiceScaler` calls for.
#[derive(Debug, Clone, Copy, PartialEq, Eq, Structural)]
pub enum ServiceScalerAction {
    Create,
    Update,
    Delete,
}

/// What the controller framework is to do with the object after a reconciliation.
#[derive(Debug, Clone, Copy, PartialEq, Eq, Structural)]
pub enum Action {
    /// Reconcile again after this many seconds.
    Requeue(u64),
    /// Wait for the next change of the object.
    AwaitChange,
}

/// Why an autoscaler is being looked up or created.
#[derive(Debug, Clone, Copy, PartialEq, Eq, Structural)]
pub enum Purpose {
    /// The `ServiceScaler` is new.
    Create,
    /// An update found the autoscaler missing.
    Update,
}

/// A call to the cluster, on the object named like the `ServiceScaler` in its namespace.
#[derive(Debug, Clone)]
pub enum Request {
    /// Merge-patch `metadata.finalizers` of the `ServiceScaler` to this list; none clears it.
    PatchFinalizers(Option<Vec<String>>),
    /// Read the autoscaler.
    GetHpa,
    /// Create this autoscaler.
    CreateHpa(HorizontalPodAutoscaler),
    /// Merge-patch these annotations into the metadata of the autoscaler.
    PatchHpaAnnotations(StringMap),
    /// Merge-patch these labels into the metadata of the autoscaler.
    PatchHpaLabels(StringMap),
    /// Merge-patch `spec` of the autoscaler with this specification.
    PatchHpaSpec(HorizontalPodAutoscalerSpec),
    /// Delete the autoscaler.
    DeleteHpa,
    /// Read the `ServiceScaler` again.
    GetServiceScaler,
    /// Merge-patch the status of the `ServiceScaler` with this one.
    PatchStatus(ServiceScalerStatus),
}

/// The answer of the cluster to a request.
#[derive(Debug, Clone)]
pub enum Response {
    /// The call failed.
    Failed(ApiError),
    /// The call succeeded; what it returned is of no interest.
    Done,
    /// The call succeeded and returned this autoscaler.
    Hpa(HorizontalPodAutoscaler),
    /// The call succeeded and returned this `ServiceScaler`.
    ServiceScaler(ServiceScaler),
}

/// Where a reconciliation stands: which answer it waits for, and what it
/// remembers for the calls that follow.
#[derive(Debug)]
pub enum State {
    /// Nothing has been asked yet.
    Init,
    /// Waits for the finalizer to be added.
    AddingFinalizer,
    /// Waits to learn whether the autoscaler exists.
    LookingUpHpa { purpose: Purpose },
    /// Waits for the marker annotations to be written onto the autoscaler found.
    Annotating { existing: HorizontalPodAutoscaler, purpose: Purpose },
    /// Waits for the new autoscaler to be created.
    CreatingHpa { purpose: Purpose },
    /// Waits for the labels to be written onto the autoscaler created.
    LabellingHpa { created: HorizontalPodAutoscaler, purpose: Purpose },
    /// Waits for the autoscaler of a deleted `ServiceScaler` to be deleted.
    DeletingHpa,
    /// Waits for the finalizer to be removed.
    RemovingFinalizer,
    /// Waits for the autoscaler to be deleted because the baseline has equal bounds.
    DisablingScaling,
    /// Waits for the live autoscaler of an update.
    FetchingHpa,
    /// Waits for the specification of the autoscaler to be patched.
    PatchingHpa { resolution: Resolution },
    /// Waits for the `ServiceScaler` to be read again before its status is written.
    ReadingScaler { resolution: Resolution, patch_failure: Option<ApiError> },
    /// Waits for the status to be written.
    WritingStatus { patch_failure: Option<ApiError> },
    /// The reconciliation is over. `warning` is an error that is reported without failing it.
    Finished { result: Result<Action, Error>, warning: Option<Error> },
}

/// The action that the metadata of a `ServiceScaler` calls for: deletion once
/// a deletion timestamp is set, creation while there is no finalizer, an
/// update otherwise.
pub open spec fn classified(service_scaler: ServiceScaler) -> ServiceScalerAction {
    if service_scaler.metadata.deletion_timestamp is Some {
        ServiceScalerAction::Delete
    } else if service_scaler.metadata.finalizers is None
        || service_scaler.metadata.finalizers->0@.len() == 0 {
        ServiceScalerAction::Create
    } else {
        ServiceScalerAction::Update
    }
}

/// Classifies an observed `ServiceScaler`.
pub fn classify_action(service_scaler: &ServiceScaler) -> (action: ServiceScalerAction)
    ensures
        action == classified(*service_scaler),
        action == ServiceScalerAction::Delete <==> service_scaler.metadata.deletion_timestamp
            is Some,
{
    if service_scaler.metadata.deletion_timestamp.is_some() {
        ServiceScalerAction::Delete
    } else {
        let uninitialised = match &service_scaler.metadata.finalizers {
            Some(finalizers) => finalizers.len() == 0,
            None => true,
        };
        if uninitialised {
            ServiceScalerAction::Create
        } else {
            ServiceScalerAction::Update
        }
    }
}

/// The name under which log lines speak of an object: namespace and name with a slash between.
pub fn key(namespace: &str, name: &str) -> (k: String)
    ensures
        k@ == namespace@ + "/"@ + name@,
{
    namespace.to_owned().concat("/").concat(name)
}

/// The namespace of a `ServiceScaler`; empty where it has none.
pub open spec fn namespace_of(service_scaler: ServiceScaler) -> Seq<char> {
    match service_scaler.metadata.namespace {
        Some(namespace) => namespace@,
        None => Seq::empty(),
    }
}

/// The failure that an answer reports, if it reports one.
pub open spec fn failure_of(response: Option<Response>) -> Option<ApiError> {
    match response {
        Some(Response::Failed(e)) => Some(e),
        _ => None,
    }
}

/// The answer to a deletion, as `hpa::delete` reads it.
pub open spec fn deletion_outcome(response: Option<Response>) -> Result<(), ApiError> {
    match response {
        Some(Response::Failed(e)) => Err(e),
        _ => Ok(()),
    }
}

/// The reconciliation has ended in a failed call.
pub open spec fn fails_with(next: State, request: Option<Request>, failure: ApiError) -> bool {
    &&& request is None
    &&& next == State::Finished { result: Err(Error::KubeError { source: failure }), warning: None }
}

/// The reconciliation has ended because of something the controller itself
/// found wrong with an answer: a failure without a status code.
pub open spec fn fails_locally(next: State, request: Option<Request>, text: Seq<char>) -> bool {
    &&& request is None
    &&& next matches State::Finished { result: Err(Error::KubeError { source }), warning: None }
    &&& source.code is None
    &&& source.message@ == text
}

/// The reconciliation has ended well, and the object is due again after the period.
pub open spec fn requeues(next: State, request: Option<Request>) -> bool {
    &&& request is None
    &&& next == State::Finished {
        result: Ok(Action::Requeue(RECONCILIATION_PERIOD)),
        warning: None,
    }
}

/// The step that follows once the autoscaler is known to exist.
///
/// For a new `ServiceScaler` that is the end. An update decides what to do
/// with the autoscaler: it patches it, or goes on to the status right away;
/// what it finds wrong ends the reconciliation.
pub open spec fn with_hpa(
    service_scaler: ServiceScaler,
    hpa: HorizontalPodAutoscaler,
    purpose: Purpose,
    clock: ClockReading,
    next: State,
    request: Option<Request>,
) -> bool {
    match purpose {
        Purpose::Create => requeues(next, request),
        Purpose::Update => exists|outcome: Result<Decision, Error>|
            #![trigger decides(service_scaler, hpa, clock, outcome)]
            decides(service_scaler, hpa, clock, outcome) && follows(outcome, next, request),
    }
}

/// The step that carries out what an update has decided.
pub open spec fn follows(outcome: Result<Decision, Error>, next: State, request: Option<Request>) -> bool {
    match outcome {
        Ok(Decision::NoOp(resolution)) => {
            &&& request == Some(Request::GetServiceScaler)
            &&& next == State::ReadingScaler { resolution, patch_failure: None }
        },
        Ok(Decision::Patch(resolution, spec)) => {
            &&& request == Some(Request::PatchHpaSpec(spec))
            &&& next == State::PatchingHpa { resolution }
        },
        Err(e) => {
            &&& request is None
            &&& next == State::Finished { result: Err(e), warning: None }
        },
    }
}

/// The end of an update whose status has been dealt with: a failed patch of
/// the autoscaler fails the reconciliation, otherwise the object is due again
/// after the period.
pub open spec fn concludes(patch_failure: Option<ApiError>, next: State, request: Option<Request>) -> bool {
    match patch_failure {
        Some(e) => fails_with(next, request, e),
        None => requeues(next, request),
    }
}

/// The first step of a reconciliation.
pub open spec fn begins(service_scaler: ServiceScaler, next: State, request: Option<Request>) -> bool {
    if service_scaler.metadata.namespace is None {
        &&& request is None
        &&& next matches State::Finished { result: Err(Error::UserInputError(text)), warning: None }
        &&& text@ == MISSING_NAMESPACE@
    } else {
        match classified(service_scaler) {
            ServiceScalerAction::Create => {
                &&& request matches Some(Request::PatchFinalizers(Some(list)))
                &&& list@.len() == 1
                &&& list@[0]@ == crate::finalizer::FINALIZER@
                &&& next == State::AddingFinalizer
            },
            ServiceScalerAction::Delete => {
                &&& request == Some(Request::DeleteHpa)
                &&& next == State::DeletingHpa
            },
            ServiceScalerAction::Update => if service_scaler.spec.hpa.min_replicas
                == service_scaler.spec.hpa.max_replicas {
                &&& request == Some(Request::DeleteHpa)
                &&& next == State::DisablingScaling
            } else {
                &&& request == Some(Request::GetHpa)
                &&& next == State::FetchingHpa
            },
        }
    }
}

/// Whether `next` and `request` are the step that follows `state` on the
/// answer `response`, for the given object and reading of the clock.
///
/// A failed call ends the reconciliation with that failure, but for these: an
/// autoscaler that cannot be read is created; one that was already gone counts
/// as deleted; a `ServiceScaler` that cannot be read again goes without
/// status. A finished reconciliation stays as it is.
pub open spec fn advances(
    service_scaler: ServiceScaler,
    state: State,
    response: Option<Response>,
    clock: ClockReading,
    next: State,
    request: Option<Request>,
) -> bool {
    match state {
        State::Init => begins(service_scaler, next, request),
        State::AddingFinalizer => match failure_of(response) {
            Some(e) => fails_with(next, request, e),
            None => {
                &&& request == Some(Request::GetHpa)
                &&& next == State::LookingUpHpa { purpose: Purpose::Create }
            },
        },
        State::LookingUpHpa { purpose } => match response {
            Some(Response::Hpa(existing)) => {
                &&& request matches Some(Request::PatchHpaAnnotations(annotations))
                &&& annotations@ == marker_annotations()
                &&& next == State::Annotating { existing, purpose }
            },
            _ => {
                &&& request matches Some(Request::CreateHpa(hpa))
                &&& describes_new(
                    hpa,
                    namespace_of(service_scaler),
                    service_scaler.metadata.name@,
                    service_scaler.spec.hpa,
                    service_scaler.metadata,
                )
                &&& next == State::CreatingHpa { purpose }
            },
        },
        State::Annotating { existing, purpose } => match failure_of(response) {
            Some(e) => fails_with(next, request, e),
            None => with_hpa(service_scaler, existing, purpose, clock, next, request),
        },
        State::CreatingHpa { purpose } => match response {
            Some(Response::Hpa(created)) => {
                let labels = merged_labels(service_scaler.metadata, None);
                if labels == Map::<Seq<char>, Seq<char>>::empty() {
                    with_hpa(service_scaler, created, purpose, clock, next, request)
                } else {
                    &&& request matches Some(Request::PatchHpaLabels(written))
                    &&& written@ == labels
                    &&& next == State::LabellingHpa { created, purpose }
                }
            },
            Some(Response::Failed(e)) => fails_with(next, request, e),
            _ => fails_locally(next, request, UNEXPECTED_ANSWER@),
        },
        State::LabellingHpa { created, purpose } => match failure_of(response) {
            Some(e) => fails_with(next, request, e),
            None => with_hpa(service_scaler, created, purpose, clock, next, request),
        },
        State::DeletingHpa => match deletion_outcome(response) {
            Err(e) if !deletion_succeeded(Err(e)) => fails_with(next, request, e),
            _ => {
                &&& request == Some(Request::PatchFinalizers(None))
                &&& next == State::RemovingFinalizer
            },
        },
        State::RemovingFinalizer => match failure_of(response) {
            Some(e) => fails_with(next, request, e),
            None => {
                &&& request is None
                &&& next == State::Finished { result: Ok(Action::AwaitChange), warning: None }
            },
        },
        State::DisablingScaling => match deletion_outcome(response) {
            Err(e) if !deletion_succeeded(Err(e)) => fails_with(next, request, e),
            _ => {
                &&& request is None
                &&& next == State::Finished {
                    result: Ok(Action::Requeue(RECONCILIATION_PERIOD)),
                    warning: Some(Error::LogicalSkip),
                }
            },
        },
        State::FetchingHpa => match response {
            Some(Response::Hpa(hpa)) => with_hpa(
                service_scaler,
                hpa,
                Purpose::Update,
                clock,
                next,
                request,
            ),
            _ => {
                &&& request == Some(Request::GetHpa)
                &&& next == State::LookingUpHpa { purpose: Purpose::Update }
            },
        },
        State::PatchingHpa { resolution } => {
            &&& request == Some(Request::GetServiceScaler)
            &&& next == State::ReadingScaler { resolution, patch_failure: failure_of(response) }
        },
        State::ReadingScaler { resolution, patch_failure } => match response {
            Some(Response::ServiceScaler(observed)) => match status_stamp(clock) {
                Some(_) => {
                    &&& request matches Some(Request::PatchStatus(status))
                    &&& describes_status(
                        status,
                        resolution.range_match,
                        observed,
                        resolution.config,
                        clock,
                    )
                    &&& next == State::WritingStatus { patch_failure }
                },
                None => {
                    &&& request is None
                    &&& next matches State::Finished {
                        result: Err(Error::StatusWriteFailure { source }),
                        warning: None,
                    }
                    &&& source.code is None
                    &&& source.message@ == UNPRINTABLE_TIME@
                },
            },
            _ => concludes(patch_failure, next, request),
        },
        State::WritingStatus { patch_failure } => match failure_of(response) {
            Some(e) => {
                &&& request is None
                &&& next == State::Finished {
                    result: Err(Error::StatusWriteFailure { source: e }),
                    warning: None,
                }
            },
            None => concludes(patch_failure, next, request),
        },
        State::Finished { result, warning } => {
            &&& request is None
            &&& next == state
        },
    }
}

/// A failure that the controller itself raises, without a status code.
pub fn local_failure(text: &str) -> (e: ApiError)
    ensures
        e.code is None,
        e.message@ == text@,
{
    ApiError { code: None, message: text.to_owned() }
}

/// The end of a reconciliation in a failed call.
pub fn fail(failure: ApiError) -> (r: (State, Option<Request>))
    ensures
        fails_with(r.0, r.1, failure),
{
    (State::Finished { result: Err(Error::KubeError { source: failure }), warning: None }, None)
}

/// The end of a reconciliation that went well.
pub fn requeue() -> (r: (State, Option<Request>))
    ensures
        requeues(r.0, r.1),
{
    (
        State::Finished { result: Ok(Action::Requeue(RECONCILIATION_PERIOD)), warning: None },
        None,
    )
}

/// The end of an update whose status has been dealt with.
pub fn conclude(patch_failure: Option<ApiError>) -> (r: (State, Option<Request>))
    ensures
        concludes(patch_failure, r.0, r.1),
{
    match patch_failure {
        Some(e) => fail(e),
        None => requeue(),
    }
}

/// The step that follows once the autoscaler is known to exist.
pub fn proceed_with_hpa(service_scaler: &ServiceScaler, hpa: HorizontalPodAutoscaler, purpose: Purpose, clock: &ClockReading) -> (r: (State, Option<Request>))
    ensures
        with_hpa(*service_scaler, hpa, purpose, *clock, r.0, r.1),
{
    match purpose {
        Purpose::Create => requeue(),
        Purpose::Update => {
            let outcome = act(service_scaler, &hpa, clock);
            let ghost decided = outcome;
            let r = match outcome {
                Ok(Decision::NoOp(resolution)) => (
                    State::ReadingScaler { resolution, patch_failure: None },
                    Some(Request::GetServiceScaler),
                ),
                Ok(Decision::Patch(resolution, spec)) => (
                    State::PatchingHpa { resolution },
                    Some(Request::PatchHpaSpec(spec)),
                ),
                Err(e) => (State::Finished { result: Err(e), warning: None }, None),
            };
            proof {
                assert(decides(*service_scaler, hpa, *clock, decided) && follows(decided, r.0, r.1));
            }
            r
        },
    }
}

/// The first step of a reconciliation.
pub fn begin(service_scaler: &ServiceScaler) -> (r: (State, Option<Request>))
    ensures
        begins(*service_scaler, r.0, r.1),
{
    if service_scaler.metadata.namespace.is_none() {
        return (
            State::Finished {
                result: Err(Error::UserInputError(MISSING_NAMESPACE.to_owned())),
                warning: None,
            },
            None,
        );
    }
    match classify_action(service_scaler) {
        ServiceScalerAction::Create => (
            State::AddingFinalizer,
            Some(Request::PatchFinalizers(crate::finalizer::add())),
        ),
        ServiceScalerAction::Delete => (State::DeletingHpa, Some(Request::DeleteHpa)),
        ServiceScalerAction::Update => {
            if service_scaler.spec.hpa.min_replicas == service_scaler.spec.hpa.max_replicas {
                (State::DisablingScaling, Some(Request::DeleteHpa))
            } else {
                (State::FetchingHpa, Some(Request::GetHpa))
            }
        },
    }
}

/// Reads an answer for the failure it reports.
pub fn into_failure(response: Option<Response>) -> (failure: Option<ApiError>)
    ensures
        failure == failure_of(response),
{
    match response {
        Some(Response::Failed(e)) => Some(e),
        _ => None,
    }
}

/// Reads the answer to a deletion.
pub fn into_deletion(response: Option<Response>) -> (outcome: Result<(), ApiError>)
    ensures
        outcome == deletion_outcome(response),
{
    match response {
        Some(Response::Failed(e)) => Err(e),
        _ => Ok(()),
    }
}

/// Takes one step of a reconciliation: from where it stands and the answer
/// to its last request, to where it stands next and the request to make.
/// There is no request once the reconciliation is over.
pub fn reconcile(service_scaler: &ServiceScaler, state: State, response: Option<Response>, clock: &ClockReading) -> (r: (State, Option<Request>))
    ensures
        advances(*service_scaler, state, response, *clock, r.0, r.1),
        r.1 is None <==> r.0 is Finished,
{
    match state {
        State::Init => begin(service_scaler),
        State::AddingFinalizer => match into_failure(response) {
            Some(e) => fail(e),
            None => (State::LookingUpHpa { purpose: Purpose::Create }, Some(Request::GetHpa)),
        },
        State::LookingUpHpa { purpose } => match response {
            Some(Response::Hpa(existing)) => (
                State::Annotating { existing, purpose },
                Some(Request::PatchHpaAnnotations(crate::hpa::managed_annotations())),
            ),
            _ => {
                let namespace = match &service_scaler.metadata.namespace {
                    Some(namespace) => namespace.as_str(),
                    None => "",
                };
                proof {
                    reveal_strlit("");
                    assert(namespace@ =~= namespace_of(*service_scaler));
                }
                let hpa = crate::hpa::create(
                    namespace,
                    service_scaler.metadata.name.as_str(),
                    &service_scaler.spec.hpa,
                    &service_scaler.metadata,
                );
                (State::CreatingHpa { purpose }, Some(Request::CreateHpa(hpa)))
            },
        },
        State::Annotating { existing, purpose } => match into_failure(response) {
            Some(e) => fail(e),
            None => proceed_with_hpa(service_scaler, existing, purpose, clock),
        },
        State::CreatingHpa { purpose } => match response {
            Some(Response::Hpa(created)) => {
                match crate::hpa::patch_metadata(&service_scaler.metadata, None) {
                    Some(labels) => (
                        State::LabellingHpa { created, purpose },
                        Some(Request::PatchHpaLabels(labels)),
                    ),
                    None => proceed_with_hpa(service_scaler, created, purpose, clock),
                }
            },
            Some(Response::Failed(e)) => fail(e),
            _ => fail(local_failure(UNEXPECTED_ANSWER)),
        },
        State::LabellingHpa { created, purpose } => match into_failure(response) {
            Some(e) => fail(e),
            None => proceed_with_hpa(service_scaler, created, purpose, clock),
        },
        State::DeletingHpa => match crate::hpa::delete(into_deletion(response)) {
            Ok(_) => (
                State::RemovingFinalizer,
                Some(Request::PatchFinalizers(crate::finalizer::delete())),
            ),
            Err(e) => fail(e),
        },
        State::RemovingFinalizer => match into_failure(response) {
            Some(e) => fail(e),
            None => (State::Finished { result: Ok(Action::AwaitChange), warning: None }, None),
        },
        State::DisablingScaling => match crate::hpa::delete(into_deletion(response)) {
            Ok(_) => (
                State::Finished {
                    result: Ok(Action::Requeue(RECONCILIATION_PERIOD)),
                    warning: Some(Error::LogicalSkip),
                },
                None,
            ),
            Err(e) => fail(e),
        },
        State::FetchingHpa => match response {
            Some(Response::Hpa(hpa)) => proceed_with_hpa(
                service_scaler,
                hpa,
                Purpose::Update,
                clock,
            ),
            _ => (State::LookingUpHpa { purpose: Purpose::Update }, Some(Request::GetHpa)),
        },
        State::PatchingHpa { resolution } => (
            State::ReadingScaler { resolution, patch_failure: into_failure(response) },
            Some(Request::GetServiceScaler),
        ),
        State::ReadingScaler { resolution, patch_failure } => match response {
            Some(Response::ServiceScaler(observed)) => {
                match patch_status(resolution.range_match, &observed, &resolution.config, clock) {
                    Some(status) => (
                        State::WritingStatus { patch_failure },
                        Some(Request::PatchStatus(status)),
                    ),
                    None => (
                        State::Finished {
                            result: Err(
                                Error::StatusWriteFailure {
                                    source: local_failure(UNPRINTABLE_TIME),
                                },
                            ),
                            warning: None,
                        },
                        None,
                    ),
                }
            },
            _ => conclude(patch_failure),
        },
        State::WritingStatus { patch_failure } => match into_failure(response) {
            Some(e) => (
                State::Finished { result: Err(Error::StatusWriteFailure { source: e }), warning: None },
                None,
            ),
            None => conclude(patch_failure),
        },
        State::Finished { result, warning } => (State::Finished { result, warning }, None),
    }
}

/// What the framework is told after a reconciliation that failed: to try
/// again after the period, whatever the error.
pub fn on_error(error: &Error) -> (action: Action)
    ensures
        action == Action::Requeue(RECONCILIATION_PERIOD),
{
    Action::Requeue(RECONCILIATION_PERIOD)
}

} // verus!
