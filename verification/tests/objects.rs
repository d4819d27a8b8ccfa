use service_scaler::crd::{HpaOverrideSpec, HpaSpec, ObjectMeta, ServiceScaler, ServiceScalerSpec};
use service_scaler::error::Error;
use service_scaler::finalizer::{add, delete, FINALIZER};
use service_scaler::hpa::ApiError;
use service_scaler::status::patch_status;
use service_scaler::time::{ClockReading, Instant};

fn observed(generation: Option<i64>) -> ServiceScaler {
    ServiceScaler {
        metadata: ObjectMeta {
            name: "web".to_string(),
            namespace: Some("shop".to_string()),
            labels: None,
            annotations: None,
            finalizers: None,
            deletion_timestamp: None,
            generation,
        },
        spec: ServiceScalerSpec {
            hpa: HpaSpec {
                min_replicas: 2,
                max_replicas: 10,
                target_cpu_utilization: None,
                target_memory_utilization: None,
            },
            time_range_spec: vec![],
        },
        status: None,
    }
}

#[test]
fn baseline_as_override_names_every_field() {
    let base = HpaSpec {
        min_replicas: 2,
        max_replicas: 10,
        target_cpu_utilization: Some(70),
        target_memory_utilization: None,
    };
    assert_eq!(
        base.as_override(),
        HpaOverrideSpec {
            min_replicas: Some(2),
            max_replicas: Some(10),
            target_cpu_utilization: Some(70),
            target_memory_utilization: None,
        }
    );
}

#[test]
fn finalizer_is_added_as_the_only_one() {
    assert_eq!(FINALIZER, "servicescalers.scaler.udaan.io/finalizer");
    assert_eq!(add(), Some(vec!["servicescalers.scaler.udaan.io/finalizer".to_string()]));
}

#[test]
fn finalizer_is_removed_by_clearing_the_list() {
    assert_eq!(delete(), None);
}

#[test]
fn status_carries_outcome_generation_and_time() {
    let config = HpaOverrideSpec {
        min_replicas: Some(3),
        max_replicas: Some(11),
        target_cpu_utilization: None,
        target_memory_utilization: Some(60),
    };
    let clock = ClockReading { now: Instant { secs: 1793226600, nanos: 0 }, utc_offset: 3600 };
    let status = patch_status(true, &observed(Some(7)), &config, &clock).unwrap();
    assert!(status.time_range_match);
    assert_eq!(status.last_observed_generation, Some(7));
    assert_eq!(status.last_known_config, config);
    assert_eq!(status.last_updated_time, "2026-10-28T23:30Z+0100");
    let status = patch_status(false, &observed(None), &config, &clock).unwrap();
    assert!(!status.time_range_match);
    assert_eq!(status.last_observed_generation, None);
}

#[test]
fn no_status_without_a_printable_time() {
    let config = HpaSpec {
        min_replicas: 2,
        max_replicas: 10,
        target_cpu_utilization: None,
        target_memory_utilization: None,
    }
    .as_override();
    let clock = ClockReading { now: Instant { secs: i64::MIN, nanos: 0 }, utc_offset: 0 };
    assert!(patch_status(true, &observed(Some(7)), &config, &clock).is_none());
}

#[test]
fn error_messages() {
    let refused = ApiError { code: Some(500), message: "refused".to_string() };
    assert_eq!(
        Error::KubeError { source: refused.clone() }.message(),
        "Kubernetes reported error: refused"
    );
    assert_eq!(
        Error::UserInputError("no namespace".to_string()).message(),
        "Invalid ServiceScaler CRD: no namespace"
    );
    assert_eq!(Error::LogicalSkip.message(), "minReplicas == maxReplicas");
    assert_eq!(
        Error::StatusWriteFailure { source: refused }.message(),
        "Status could not be written: refused"
    );
}
