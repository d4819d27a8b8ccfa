//! The status that the controller reports on a `ServiceScaler`.

use crate::crd::{HpaOverrideSpec, ServiceScaler, ServiceScalerStatus};
use crate::time::{status_stamp, status_time, ClockReading};
use vstd::prelude::*;

verus! {

/// Whether `status` reports the given outcome of an update on the object as
/// it was last read: whether a window was open, the generation of the object,
/// the configuration written, and the time of the clock reading.
pub open spec fn describes_status(
    status: ServiceScalerStatus,
    time_range_match: bool,
    observed: ServiceScaler,
    config: HpaOverrideSpec,
    clock: ClockReading,
) -> bool {
    &&& status.time_range_match == time_range_match
    &&& status.last_observed_generation == observed.metadata.generation
    &&& status.last_known_config == config
    &&& Some(status.last_updated_time@) == status_stamp(clock)
}

/// The status to write after an update. There is none where the time of the
/// clock reading cannot be printed.
pub fn patch_status(time_range_match: bool, observed: &ServiceScaler, hpa_spec: &HpaOverrideSpec, clock: &ClockReading) -> (status: Option<ServiceScalerStatus>)
    ensures
        status is Some <==> status_stamp(*clock) is Some,
        status is Some ==> describes_status(
            status->0,
            time_range_match,
            *observed,
            *hpa_spec,
            *clock,
        ),
{
    match status_time(clock) {
        Some(last_updated_time) => Some(
            ServiceScalerStatus {
                time_range_match,
                last_observed_generation: observed.metadata.generation,
                last_known_config: *hpa_spec,
                last_updated_time,
            },
        ),
        None => None,
    }
}

} // verus!
