//! The adapter interface the per-group child-supervision mode drives: the
//! same four primitives as the control plane, for the container-engine and
//! service-manager adapters that back a single spawned proxy.

use vstd::prelude::*;

use crate::metadata::Metadata;

verus! {

/// One adapter over a workload orchestrator. Implementations perform the
/// orchestrator I/O; a call naming a group with no matching workload is a
/// no-op.
pub trait Adapter {
    /// Stop every workload carrying the given group marker.
    fn stop(group: &String);

    /// Start every workload carrying the given group marker.
    fn start(group: &String);

    /// Stop every workload carrying the management-enablement marker.
    fn stop_all_containers();

    /// One origin-normalized metadata map per managed workload.
    fn get_container_labels() -> Vec<Metadata>;
}

} // verus!
