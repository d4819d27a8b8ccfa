//! Decision logic of a controller that scales workloads on a schedule.
//!
//! A `ServiceScaler` declares a baseline autoscaler configuration and a list of
//! time windows with overrides. This crate holds everything the controller
//! decides: which action an observed object calls for, which window is open,
//! how far the replica bounds move in one round, when a write can be skipped,
//! what the objects and patches sent to the cluster contain, and in which
//! order the calls of one reconciliation follow each other.

pub mod crd;
pub mod error;
pub mod finalizer;
pub mod hpa;
pub mod labels;
pub mod laws;
pub mod reconcile;
pub mod scale;
pub mod status;
pub mod stepper;
pub mod time;

