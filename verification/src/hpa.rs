//! The autoscaler objects the controller manages, and the content of every
//! object and patch it sends for them.

use crate::crd::{HpaSpec, ObjectMeta};
use crate::labels::StringMap;
use vstd::prelude::*;

verus! {

/// API version of the autoscaler objects.
pub const K8S_AUTOSCALING_VERSION: &'static str = "autoscaling/v2beta2";

/// API version under which a patch names the scaled deployment.
pub const K8S_DEPLOYMENT_VERSION: &'static str = "apps/v1";

/// API version under which a newly built autoscaler names the scaled deployment.
pub const NEW_TARGET_API_VERSION: &'static str = "apps/v2beta2";

/// Kind of the scaled object.
pub const TARGET_KIND: &'static str = "Deployment";

/// Annotation that marks an autoscaler as owned by this controller.
pub const SERVICE_SCALER_MANAGED_ANNOTATION: &'static str = "service-scaler.kubernetes.io/managed";

/// Value of the managed annotation on an owned autoscaler.
pub const MANAGED_VALUE: &'static str = "true";

/// Annotation that carries a notice for people who read the autoscaler.
pub const SERVICE_SCALER_NOTE_KEY: &'static str = "service-scaler.kubernetes.io/note";

/// The notice itself.
pub const SERVICE_SCALER_NOTE_VALUE: &'static str = "DO-NOT-EDIT-THIS--EDIT-SERVICE-SCALER-INSTEAD";

/// Name of the CPU resource in a metric.
pub const CPU: &'static str = "cpu";

/// Name of the memory resource in a metric.
pub const MEMORY: &'static str = "memory";

/// CPU utilization target of a new autoscaler whose baseline names none.
pub const DEFAULT_CPU_UTILIZATION: i32 = 80;

/// Status code with which the cluster answers for an object that does not exist.
pub const NOT_FOUND: u16 = 404;

/// Reference to the object an autoscaler scales.
#[derive(Debug, Clone)]
pub struct CrossVersionObjectReference {
    pub api_version: Option<String>,
    pub kind: String,
    pub name: String,
}

/// A metric of type `Resource` with a target of type `Utilization`.
#[derive(Debug, Clone)]
pub struct ResourceMetric {
    pub name: String,
    pub average_utilization: Option<i32>,
}

/// The specification of an autoscaler.
#[derive(Debug, Clone)]
pub struct HorizontalPodAutoscalerSpec {
    pub max_replicas: i32,
    pub metrics: Vec<ResourceMetric>,
    pub min_replicas: Option<i32>,
    pub scale_target_ref: CrossVersionObjectReference,
}

/// An autoscaler object.
#[derive(Debug, Clone)]
pub struct HorizontalPodAutoscaler {
    pub metadata: ObjectMeta,
    pub spec: HorizontalPodAutoscalerSpec,
}

/// A failed call to the cluster: the status code of the answer, if there was one.
#[derive(Debug, Clone)]
pub struct ApiError {
    pub code: Option<u16>,
    pub message: String,
}

/// Name and utilization target of each metric, in order.
pub open spec fn metric_targets(metrics: Seq<ResourceMetric>) -> Seq<(Seq<char>, Option<i32>)> {
    Seq::new(metrics.len(), |i: int| (metrics[i].name@, metrics[i].average_utilization))
}

/// The metrics of a new autoscaler: CPU and memory where the baseline names
/// both, CPU alone where it names CPU, and CPU at the default target otherwise.
pub open spec fn initial_metrics(baseline: HpaSpec) -> Seq<(Seq<char>, Option<i32>)> {
    if baseline.target_cpu_utilization is Some && baseline.target_memory_utilization is Some {
        seq![(CPU@, baseline.target_cpu_utilization), (MEMORY@, baseline.target_memory_utilization)]
    } else if baseline.target_cpu_utilization is Some {
        seq![(CPU@, baseline.target_cpu_utilization)]
    } else {
        seq![(CPU@, Some(DEFAULT_CPU_UTILIZATION))]
    }
}

/// The metrics a patch writes: memory first, then CPU, each only where a target is given.
pub open spec fn patched_metrics(config: HpaSpec) -> Seq<(Seq<char>, Option<i32>)> {
    let memory = if config.target_memory_utilization is Some {
        seq![(MEMORY@, config.target_memory_utilization)]
    } else {
        Seq::empty()
    };
    let cpu = if config.target_cpu_utilization is Some {
        seq![(CPU@, config.target_cpu_utilization)]
    } else {
        Seq::empty()
    };
    memory + cpu
}

/// The annotations that mark an autoscaler as managed.
pub open spec fn marker_annotations() -> Map<Seq<char>, Seq<char>> {
    Map::<Seq<char>, Seq<char>>::empty().insert(
        SERVICE_SCALER_MANAGED_ANNOTATION@,
        MANAGED_VALUE@,
    ).insert(SERVICE_SCALER_NOTE_KEY@, SERVICE_SCALER_NOTE_VALUE@)
}

/// The map behind an optional set of labels or annotations; absent reads as empty.
pub open spec fn map_or_empty(m: Option<StringMap>) -> Map<Seq<char>, Seq<char>> {
    match m {
        Some(m) => m@,
        None => Map::empty(),
    }
}

/// A metric for the named resource with the given utilization target.
pub fn utilization_metric(resource: &str, target: i32) -> (m: ResourceMetric)
    ensures
        m.name@ == resource@,
        m.average_utilization == Some(target),
{
    ResourceMetric { name: resource.to_owned(), average_utilization: Some(target) }
}

/// The annotations written onto an autoscaler to mark it as managed.
pub fn managed_annotations() -> (m: StringMap)
    ensures
        m@ == marker_annotations(),
{
    let mut m = StringMap::new();
    m.insert(SERVICE_SCALER_MANAGED_ANNOTATION.to_owned(), MANAGED_VALUE.to_owned());
    m.insert(SERVICE_SCALER_NOTE_KEY.to_owned(), SERVICE_SCALER_NOTE_VALUE.to_owned());
    m
}

/// Whether `hpa` is the autoscaler to create for a `ServiceScaler` with the
/// given namespace, name, baseline and metadata.
///
/// It scales the deployment named like the `ServiceScaler`, between the
/// baseline's bounds. It carries the labels of the `ServiceScaler`, and its
/// annotations with the two marker annotations set.
pub open spec fn describes_new(
    hpa: HorizontalPodAutoscaler,
    namespace: Seq<char>,
    name: Seq<char>,
    baseline: HpaSpec,
    scaler_metadata: ObjectMeta,
) -> bool {
    &&& hpa.metadata.name@ == name
    &&& hpa.metadata.namespace is Some && hpa.metadata.namespace->0@ == namespace
    &&& hpa.metadata.annotations is Some && hpa.metadata.annotations->0@ == map_or_empty(
        scaler_metadata.annotations,
    ).union_prefer_right(marker_annotations())
    &&& hpa.metadata.labels is Some == scaler_metadata.labels is Some
    &&& map_or_empty(hpa.metadata.labels) == map_or_empty(scaler_metadata.labels)
    &&& hpa.metadata.finalizers is None
    &&& hpa.metadata.deletion_timestamp is None
    &&& hpa.metadata.generation is None
    &&& hpa.spec.min_replicas == Some(baseline.min_replicas)
    &&& hpa.spec.max_replicas == baseline.max_replicas
    &&& metric_targets(hpa.spec.metrics@) == initial_metrics(baseline)
    &&& hpa.spec.scale_target_ref.api_version is Some
        && hpa.spec.scale_target_ref.api_version->0@ == NEW_TARGET_API_VERSION@
    &&& hpa.spec.scale_target_ref.kind@ == TARGET_KIND@
    &&& hpa.spec.scale_target_ref.name@ == name
}

/// Whether `spec` is what a patch writes onto the autoscaler named `name` to
/// give it the configuration `config`: its bounds, the deployment of the
/// same name as target, and one metric for each utilization target it names.
pub open spec fn describes_patch(spec: HorizontalPodAutoscalerSpec, name: Seq<char>, config: HpaSpec) -> bool {
    &&& spec.min_replicas == Some(config.min_replicas)
    &&& spec.max_replicas == config.max_replicas
    &&& metric_targets(spec.metrics@) == patched_metrics(config)
    &&& spec.scale_target_ref.api_version is Some && spec.scale_target_ref.api_version->0@
        == K8S_DEPLOYMENT_VERSION@
    &&& spec.scale_target_ref.kind@ == TARGET_KIND@
    &&& spec.scale_target_ref.name@ == name
}

/// The autoscaler to create for a `ServiceScaler` that has none.
pub fn create(namespace: &str, name: &str, hpa_spec: &HpaSpec, service_scaler_metadata: &ObjectMeta) -> (hpa: HorizontalPodAutoscaler)
    ensures
        describes_new(hpa, namespace@, name@, *hpa_spec, *service_scaler_metadata),
{
    let mut annotations = match &service_scaler_metadata.annotations {
        Some(own) => own.duplicate(),
        None => StringMap::new(),
    };
    let markers = managed_annotations();
    annotations.append(&markers);
    let labels = match &service_scaler_metadata.labels {
        Some(own) => Some(own.duplicate()),
        None => None,
    };
    let mut metrics: Vec<ResourceMetric> = Vec::new();
    match (hpa_spec.target_cpu_utilization, hpa_spec.target_memory_utilization) {
        (Some(cpu), Some(memory)) => {
            metrics.push(utilization_metric(CPU, cpu));
            metrics.push(utilization_metric(MEMORY, memory));
        },
        (Some(cpu), None) => {
            metrics.push(utilization_metric(CPU, cpu));
        },
        (None, _) => {
            metrics.push(utilization_metric(CPU, DEFAULT_CPU_UTILIZATION));
        },
    }
    proof {
        assert(metric_targets(metrics@) =~= initial_metrics(*hpa_spec));
    }
    HorizontalPodAutoscaler {
        metadata: ObjectMeta {
            name: name.to_owned(),
            namespace: Some(namespace.to_owned()),
            labels,
            annotations: Some(annotations),
            finalizers: None,
            deletion_timestamp: None,
            generation: None,
        },
        spec: HorizontalPodAutoscalerSpec {
            max_replicas: hpa_spec.max_replicas,
            metrics,
            min_replicas: Some(hpa_spec.min_replicas),
            scale_target_ref: CrossVersionObjectReference {
                api_version: Some(NEW_TARGET_API_VERSION.to_owned()),
                kind: TARGET_KIND.to_owned(),
                name: name.to_owned(),
            },
        },
    }
}

/// The `spec` that a patch writes onto the autoscaler named `name` to give it
/// the configuration `hpa_spec`.
pub fn patch(name: &str, hpa_spec: &HpaSpec) -> (spec: HorizontalPodAutoscalerSpec)
    ensures
        describes_patch(spec, name@, *hpa_spec),
{
    let mut metrics: Vec<ResourceMetric> = Vec::new();
    match hpa_spec.target_memory_utilization {
        Some(memory) => {
            metrics.push(utilization_metric(MEMORY, memory));
        },
        None => {},
    }
    match hpa_spec.target_cpu_utilization {
        Some(cpu) => {
            metrics.push(utilization_metric(CPU, cpu));
        },
        None => {},
    }
    proof {
        assert(metric_targets(metrics@) =~= patched_metrics(*hpa_spec));
    }
    HorizontalPodAutoscalerSpec {
        max_replicas: hpa_spec.max_replicas,
        metrics,
        min_replicas: Some(hpa_spec.min_replicas),
        scale_target_ref: CrossVersionObjectReference {
            api_version: Some(K8S_DEPLOYMENT_VERSION.to_owned()),
            kind: TARGET_KIND.to_owned(),
            name: name.to_owned(),
        },
    }
}

/// The specification an autoscaler has after a merge patch of its `spec`:
/// what the patch names replaces what was there, the list of metrics as a
/// whole; what it leaves out stays.
pub open spec fn merged_spec(live: HorizontalPodAutoscalerSpec, patch: HorizontalPodAutoscalerSpec) -> HorizontalPodAutoscalerSpec {
    HorizontalPodAutoscalerSpec {
        max_replicas: patch.max_replicas,
        metrics: patch.metrics,
        min_replicas: if patch.min_replicas is Some {
            patch.min_replicas
        } else {
            live.min_replicas
        },
        scale_target_ref: CrossVersionObjectReference {
            api_version: if patch.scale_target_ref.api_version is Some {
                patch.scale_target_ref.api_version
            } else {
                live.scale_target_ref.api_version
            },
            kind: patch.scale_target_ref.kind,
            name: patch.scale_target_ref.name,
        },
    }
}

/// The autoscaler after a merge patch of its `spec`.
pub open spec fn after_patch(hpa: HorizontalPodAutoscaler, patch: HorizontalPodAutoscalerSpec) -> HorizontalPodAutoscaler {
    HorizontalPodAutoscaler { metadata: hpa.metadata, spec: merged_spec(hpa.spec, patch) }
}

/// Applies a merge patch of `spec` to an autoscaler, as the cluster does.
pub fn apply_patch(hpa: HorizontalPodAutoscaler, patch: HorizontalPodAutoscalerSpec) -> (r: HorizontalPodAutoscaler)
    ensures
        r == after_patch(hpa, patch),
{
    let HorizontalPodAutoscaler { metadata, spec: live } = hpa;
    let HorizontalPodAutoscalerSpec { max_replicas, metrics, min_replicas, scale_target_ref } =
        patch;
    let CrossVersionObjectReference { api_version, kind, name } = scale_target_ref;
    HorizontalPodAutoscaler {
        metadata,
        spec: HorizontalPodAutoscalerSpec {
            max_replicas,
            metrics,
            min_replicas: match min_replicas {
                Some(min) => Some(min),
                None => live.min_replicas,
            },
            scale_target_ref: CrossVersionObjectReference {
                api_version: match api_version {
                    Some(version) => Some(version),
                    None => live.scale_target_ref.api_version,
                },
                kind,
                name,
            },
        },
    }
}

/// The labels of the `ServiceScaler` overlaid with those of the autoscaler, if one is given.
pub open spec fn merged_labels(
    scaler_metadata: ObjectMeta,
    hpa_metadata: Option<&ObjectMeta>,
) -> Map<Seq<char>, Seq<char>> {
    map_or_empty(scaler_metadata.labels).union_prefer_right(
        match hpa_metadata {
            Some(meta) => map_or_empty(meta.labels),
            None => Map::empty(),
        },
    )
}

/// The labels to write onto an autoscaler: those of the `ServiceScaler`
/// overlaid with those the autoscaler already has. Nothing is to be written
/// when there is no label at all.
pub fn patch_metadata(scaler_metadata: &ObjectMeta, hpa_metadata: Option<&ObjectMeta>) -> (labels: Option<StringMap>)
    ensures
        labels is Some <==> merged_labels(*scaler_metadata, hpa_metadata) != Map::<
            Seq<char>,
            Seq<char>,
        >::empty(),
        labels is Some ==> labels->0@ == merged_labels(*scaler_metadata, hpa_metadata),
{
    let mut labels = StringMap::new();
    match &scaler_metadata.labels {
        Some(own) => {
            labels.append(own);
        },
        None => {},
    }
    proof {
        assert(labels@ =~= map_or_empty(scaler_metadata.labels));
    }
    match hpa_metadata {
        Some(meta) => {
            match &meta.labels {
                Some(theirs) => {
                    labels.append(theirs);
                },
                None => {},
            }
        },
        None => {},
    }
    proof {
        assert(labels@ =~= merged_labels(*scaler_metadata, hpa_metadata));
    }
    if labels.is_empty() {
        None
    } else {
        Some(labels)
    }
}

/// Whether the answer to a deletion counts as success: the object was
/// deleted, or it did not exist.
pub open spec fn deletion_succeeded(outcome: Result<(), ApiError>) -> bool {
    match outcome {
        Ok(_) => true,
        Err(e) => e.code == Some(NOT_FOUND),
    }
}

/// Reads the answer to a deletion: an object that was already gone counts as
/// deleted, every other failure is handed on unchanged.
pub fn delete(outcome: Result<(), ApiError>) -> (r: Result<(), ApiError>)
    ensures
        r is Ok <==> deletion_succeeded(outcome),
        r is Err ==> r == outcome,
{
    match outcome {
        Ok(_) => Ok(()),
        Err(e) => {
            match e.code {
                Some(code) => {
                    if code == NOT_FOUND {
                        Ok(())
                    } else {
                        Err(e)
                    }
                },
                None => Err(e),
            }
        },
    }
}

} // verus!
