//! The `ServiceScaler` custom resource: its specification, its status and the
//! part of its metadata that the controller reads.

use crate::labels::StringMap;
use vstd::prelude::*;

verus! {

/// How the `from` and `to` strings of a time range are read.
#[derive(Debug, Clone, Copy, PartialEq, Eq, Structural)]
pub enum TimeRangeType {
    /// A time of day with an offset, recurring every day.
    ZonedTime,
    /// An absolute timestamp with an offset.
    ZonedDateTime,
}

/// The baseline autoscaler configuration of a workload.
#[derive(Debug, Clone, Copy, PartialEq, Eq, Structural)]
pub struct HpaSpec {
    pub min_replicas: i32,
    pub max_replicas: i32,
    pub target_cpu_utilization: Option<i32>,
    pub target_memory_utilization: Option<i32>,
}

/// An autoscaler configuration in which every field may be absent.
#[derive(Debug, Clone, Copy, PartialEq, Eq, Structural)]
pub struct HpaOverrideSpec {
    pub min_replicas: Option<i32>,
    pub max_replicas: Option<i32>,
    pub target_cpu_utilization: Option<i32>,
    pub target_memory_utilization: Option<i32>,
}

/// What a time range sets while its window is open.
#[derive(Debug, Clone, Copy, PartialEq, Eq, Structural)]
pub struct ReplicaSpec {
    pub hpa: HpaOverrideSpec,
}

/// A time window together with the configuration that applies inside it.
#[derive(Debug, Clone, PartialEq, Eq)]
pub struct TimeRangeSpec {
    pub kind: TimeRangeType,
    pub from: String,
    pub to: String,
    pub replica_spec: ReplicaSpec,
}

/// The specification of a `ServiceScaler`.
#[derive(Debug, Clone, PartialEq, Eq)]
pub struct ServiceScalerSpec {
    pub hpa: HpaSpec,
    pub time_range_spec: Vec<TimeRangeSpec>,
}

/// What the controller reports back on a `ServiceScaler`.
#[derive(Debug, Clone, PartialEq, Eq)]
pub struct ServiceScalerStatus {
    pub time_range_match: bool,
    pub last_observed_generation: Option<i64>,
    pub last_known_config: HpaOverrideSpec,
    pub last_updated_time: String,
}

/// The metadata of a cluster object, as far as the controller reads or writes it.
#[derive(Debug, Clone)]
pub struct ObjectMeta {
    pub name: String,
    pub namespace: Option<String>,
    pub labels: Option<StringMap>,
    pub annotations: Option<StringMap>,
    pub finalizers: Option<Vec<String>>,
    pub deletion_timestamp: Option<String>,
    pub generation: Option<i64>,
}

/// An observed `ServiceScaler` object.
#[derive(Debug, Clone)]
pub struct ServiceScaler {
    pub metadata: ObjectMeta,
    pub spec: ServiceScalerSpec,
    pub status: Option<ServiceScalerStatus>,
}

impl HpaSpec {
    /// The baseline written as an override that names every field the baseline has.
    pub open spec fn projected(self) -> HpaOverrideSpec {
        HpaOverrideSpec {
            min_replicas: Some(self.min_replicas),
            max_replicas: Some(self.max_replicas),
            target_cpu_utilization: self.target_cpu_utilization,
            target_memory_utilization: self.target_memory_utilization,
        }
    }

    /// The baseline written as an override that names every field the baseline has.
    pub fn as_override(&self) -> (o: HpaOverrideSpec)
        ensures
            o == self.projected(),
    {
        HpaOverrideSpec {
            min_replicas: Some(self.min_replicas),
            max_replicas: Some(self.max_replicas),
            target_cpu_utilization: self.target_cpu_utilization,
            target_memory_utilization: self.target_memory_utilization,
        }
    }
}

} // verus!
