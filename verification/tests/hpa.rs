use service_scaler::crd::{HpaSpec, ObjectMeta};
use service_scaler::hpa::{
    apply_patch, create, delete, managed_annotations, patch, patch_metadata, utilization_metric,
    ApiError, HorizontalPodAutoscaler, ResourceMetric, DEFAULT_CPU_UTILIZATION,
    K8S_AUTOSCALING_VERSION, K8S_DEPLOYMENT_VERSION, SERVICE_SCALER_MANAGED_ANNOTATION,
    SERVICE_SCALER_NOTE_KEY, SERVICE_SCALER_NOTE_VALUE,
};
use service_scaler::labels::StringMap;

fn map(pairs: &[(&str, &str)]) -> StringMap {
    let mut m = StringMap::new();
    for (k, v) in pairs {
        m.insert(k.to_string(), v.to_string());
    }
    m
}

fn meta(labels: Option<StringMap>, annotations: Option<StringMap>) -> ObjectMeta {
    ObjectMeta {
        name: "web".to_string(),
        namespace: Some("shop".to_string()),
        labels,
        annotations,
        finalizers: None,
        deletion_timestamp: None,
        generation: Some(3),
    }
}

fn baseline(cpu: Option<i32>, memory: Option<i32>) -> HpaSpec {
    HpaSpec {
        min_replicas: 2,
        max_replicas: 10,
        target_cpu_utilization: cpu,
        target_memory_utilization: memory,
    }
}

fn targets(metrics: &Vec<ResourceMetric>) -> Vec<(String, Option<i32>)> {
    metrics.iter().map(|m| (m.name.clone(), m.average_utilization)).collect()
}

fn failure(code: Option<u16>) -> ApiError {
    ApiError { code, message: "refused".to_string() }
}

#[test]
fn constants_of_the_managed_objects() {
    assert_eq!(SERVICE_SCALER_MANAGED_ANNOTATION, "service-scaler.kubernetes.io/managed");
    assert_eq!(SERVICE_SCALER_NOTE_KEY, "service-scaler.kubernetes.io/note");
    assert_eq!(SERVICE_SCALER_NOTE_VALUE, "DO-NOT-EDIT-THIS--EDIT-SERVICE-SCALER-INSTEAD");
    assert_eq!(DEFAULT_CPU_UTILIZATION, 80);
    assert_eq!(K8S_AUTOSCALING_VERSION, "autoscaling/v2beta2");
    assert_eq!(K8S_DEPLOYMENT_VERSION, "apps/v1");
}

#[test]
fn new_hpa_scales_the_deployment_of_the_same_name() {
    let hpa = create("shop", "web", &baseline(Some(70), None), &meta(None, None));
    assert_eq!(hpa.metadata.name, "web");
    assert_eq!(hpa.metadata.namespace.as_deref(), Some("shop"));
    assert_eq!(hpa.spec.scale_target_ref.kind, "Deployment");
    assert_eq!(hpa.spec.scale_target_ref.name, "web");
    assert_eq!(hpa.spec.scale_target_ref.api_version.as_deref(), Some("apps/v2beta2"));
    assert_eq!(hpa.spec.min_replicas, Some(2));
    assert_eq!(hpa.spec.max_replicas, 10);
    assert!(hpa.metadata.finalizers.is_none());
    assert!(hpa.metadata.deletion_timestamp.is_none());
    assert!(hpa.metadata.generation.is_none());
}

#[test]
fn new_hpa_has_cpu_and_memory_metrics_where_both_are_named() {
    let hpa = create("shop", "web", &baseline(Some(70), Some(60)), &meta(None, None));
    assert_eq!(
        targets(&hpa.spec.metrics),
        vec![("cpu".to_string(), Some(70)), ("memory".to_string(), Some(60))]
    );
}

#[test]
fn new_hpa_has_cpu_metric_where_only_cpu_is_named() {
    let hpa = create("shop", "web", &baseline(Some(70), None), &meta(None, None));
    assert_eq!(targets(&hpa.spec.metrics), vec![("cpu".to_string(), Some(70))]);
}

#[test]
fn new_hpa_falls_back_to_default_cpu_metric() {
    let hpa = create("shop", "web", &baseline(None, None), &meta(None, None));
    assert_eq!(targets(&hpa.spec.metrics), vec![("cpu".to_string(), Some(80))]);
    // memory alone does not make a metric
    let hpa = create("shop", "web", &baseline(None, Some(60)), &meta(None, None));
    assert_eq!(targets(&hpa.spec.metrics), vec![("cpu".to_string(), Some(80))]);
}

#[test]
fn new_hpa_is_marked_as_managed() {
    let hpa = create("shop", "web", &baseline(None, None), &meta(None, None));
    let annotations = hpa.metadata.annotations.unwrap();
    assert_eq!(annotations.get("service-scaler.kubernetes.io/managed").unwrap(), "true");
    assert_eq!(
        annotations.get("service-scaler.kubernetes.io/note").unwrap(),
        "DO-NOT-EDIT-THIS--EDIT-SERVICE-SCALER-INSTEAD"
    );
    assert!(hpa.metadata.labels.is_none());
}

#[test]
fn new_hpa_copies_labels_and_annotations() {
    let own = meta(
        Some(map(&[("app", "web")])),
        Some(map(&[("team", "shop"), ("service-scaler.kubernetes.io/managed", "false")])),
    );
    for spec in [baseline(Some(70), Some(60)), baseline(Some(70), None), baseline(None, None)] {
        let hpa = create("shop", "web", &spec, &own);
        let annotations = hpa.metadata.annotations.unwrap();
        assert_eq!(annotations.get("team").unwrap(), "shop");
        assert_eq!(annotations.get("service-scaler.kubernetes.io/managed").unwrap(), "true");
        assert!(annotations.get("service-scaler.kubernetes.io/note").is_some());
        let labels = hpa.metadata.labels.unwrap();
        assert_eq!(labels.get("app").unwrap(), "web");
        assert_eq!(labels.get("team"), None);
    }
}

#[test]
fn managed_annotations_are_the_two_markers() {
    let m = managed_annotations();
    assert_eq!(m.get("service-scaler.kubernetes.io/managed").unwrap(), "true");
    assert_eq!(
        m.get("service-scaler.kubernetes.io/note").unwrap(),
        "DO-NOT-EDIT-THIS--EDIT-SERVICE-SCALER-INSTEAD"
    );
    assert_eq!(m.get("team"), None);
}

#[test]
fn metric_names_its_resource_and_target() {
    let m = utilization_metric("memory", 55);
    assert_eq!(m.name, "memory");
    assert_eq!(m.average_utilization, Some(55));
}

#[test]
fn patch_writes_bounds_and_target() {
    let spec = patch("web", &HpaSpec {
        min_replicas: 3,
        max_replicas: 11,
        target_cpu_utilization: Some(70),
        target_memory_utilization: Some(60),
    });
    assert_eq!(spec.min_replicas, Some(3));
    assert_eq!(spec.max_replicas, 11);
    assert_eq!(spec.scale_target_ref.kind, "Deployment");
    assert_eq!(spec.scale_target_ref.name, "web");
    assert_eq!(spec.scale_target_ref.api_version.as_deref(), Some("apps/v1"));
    assert_eq!(
        targets(&spec.metrics),
        vec![("memory".to_string(), Some(60)), ("cpu".to_string(), Some(70))]
    );
}

#[test]
fn patch_writes_a_metric_for_each_target_named() {
    let with = |cpu, memory| {
        targets(
            &patch("web", &HpaSpec {
                min_replicas: 3,
                max_replicas: 11,
                target_cpu_utilization: cpu,
                target_memory_utilization: memory,
            })
            .metrics,
        )
    };
    assert_eq!(with(Some(70), None), vec![("cpu".to_string(), Some(70))]);
    assert_eq!(with(None, Some(60)), vec![("memory".to_string(), Some(60))]);
    assert_eq!(with(None, None), vec![]);
}

#[test]
fn applied_patch_replaces_bounds_metrics_and_target() {
    let live = create("shop", "web", &baseline(Some(70), Some(60)), &meta(None, None));
    let patched = apply_patch(live.clone(), patch("web", &HpaSpec {
        min_replicas: 3,
        max_replicas: 11,
        target_cpu_utilization: Some(50),
        target_memory_utilization: None,
    }));
    assert_eq!(patched.spec.min_replicas, Some(3));
    assert_eq!(patched.spec.max_replicas, 11);
    assert_eq!(targets(&patched.spec.metrics), vec![("cpu".to_string(), Some(50))]);
    assert_eq!(patched.spec.scale_target_ref.api_version.as_deref(), Some("apps/v1"));
    assert_eq!(patched.metadata.name, live.metadata.name);
    assert_eq!(
        patched.metadata.annotations.unwrap().get("service-scaler.kubernetes.io/managed").unwrap(),
        "true"
    );
}

#[test]
fn applied_patch_keeps_what_the_patch_leaves_out() {
    let live = create("shop", "web", &baseline(Some(70), None), &meta(None, None));
    let mut partial = patch("web", &baseline(None, None));
    partial.min_replicas = None;
    partial.scale_target_ref.api_version = None;
    let patched: HorizontalPodAutoscaler = apply_patch(live, partial);
    assert_eq!(patched.spec.min_replicas, Some(2));
    assert_eq!(patched.spec.scale_target_ref.api_version.as_deref(), Some("apps/v2beta2"));
    assert!(patched.spec.metrics.is_empty());
}

#[test]
fn labels_of_scaler_and_hpa_are_merged() {
    let scaler = meta(Some(map(&[("app", "web"), ("tier", "front")])), None);
    let hpa = meta(Some(map(&[("tier", "back"), ("zone", "a")])), None);
    let labels = patch_metadata(&scaler, Some(&hpa)).unwrap();
    assert_eq!(labels.get("app").unwrap(), "web");
    assert_eq!(labels.get("tier").unwrap(), "back");
    assert_eq!(labels.get("zone").unwrap(), "a");
}

#[test]
fn labels_of_scaler_alone() {
    let scaler = meta(Some(map(&[("app", "web")])), Some(map(&[("team", "shop")])));
    let labels = patch_metadata(&scaler, None).unwrap();
    assert_eq!(labels.get("app").unwrap(), "web");
    assert_eq!(labels.get("team"), None);
    let labels = patch_metadata(&scaler, Some(&meta(None, None))).unwrap();
    assert_eq!(labels.get("app").unwrap(), "web");
}

#[test]
fn labels_of_hpa_alone() {
    let hpa = meta(Some(map(&[("zone", "a")])), None);
    let labels = patch_metadata(&meta(None, None), Some(&hpa)).unwrap();
    assert_eq!(labels.get("zone").unwrap(), "a");
}

#[test]
fn no_labels_nothing_to_write() {
    assert!(patch_metadata(&meta(None, None), None).is_none());
    assert!(patch_metadata(&meta(Some(StringMap::new()), None), None).is_none());
    let empty = meta(Some(StringMap::new()), None);
    assert!(patch_metadata(&meta(None, None), Some(&empty)).is_none());
}

#[test]
fn deletion_of_a_missing_object_counts_as_done() {
    assert!(delete(Ok(())).is_ok());
    assert!(delete(Err(failure(Some(404)))).is_ok());
}

#[test]
fn other_failures_of_a_deletion_are_handed_on() {
    let e = delete(Err(failure(Some(500)))).unwrap_err();
    assert_eq!(e.code, Some(500));
    assert_eq!(e.message, "refused");
    let e = delete(Err(failure(Some(403)))).unwrap_err();
    assert_eq!(e.code, Some(403));
    let e = delete(Err(failure(None))).unwrap_err();
    assert_eq!(e.code, None);
}
