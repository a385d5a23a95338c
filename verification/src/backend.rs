//! The uniform workload control plane: backend selection and the one
//! lifecycle contract implementations of every backend variant expose.

use vstd::prelude::*;

use crate::metadata::Metadata;
use crate::text::str_eq;

verus! {

/// Backend types the control plane can target.
#[derive(Debug, Clone, Copy, PartialEq, Eq, Structural)]
pub enum BackendType {
    Docker,
    Kubernetes,
}

impl BackendType {
    /// What auto-detection yields from the well-known filesystem markers:
    /// the cluster service-account marker wins; otherwise the container
    /// engine is chosen, whether or not its socket was seen, for backward
    /// compatibility.
    pub open spec fn spec_auto_detect(kubernetes_marker: bool, docker_marker: bool) -> BackendType {
        if kubernetes_marker {
            BackendType::Kubernetes
        } else {
            BackendType::Docker
        }
    }

    /// Auto-detect the backend. `kubernetes_marker` says whether the
    /// cluster service-account token path exists, `docker_marker` whether
    /// the container-engine socket does.
    pub fn auto_detect(kubernetes_marker: bool, docker_marker: bool) -> (r: BackendType)
        ensures
            r == BackendType::spec_auto_detect(kubernetes_marker, docker_marker),
    {
        if kubernetes_marker {
            BackendType::Kubernetes
        } else if docker_marker {
            BackendType::Docker
        } else {
            // Could not detect an environment: default to the container
            // engine for backward compatibility.
            BackendType::Docker
        }
    }

    /// Select the backend: an explicit override value beats auto-detection,
    /// and an unknown override falls back to auto-detection.
    /// `override_value` is the backend-selection environment variable's
    /// value, if set.
    pub fn detect(
        override_value: &Option<String>,
        kubernetes_marker: bool,
        docker_marker: bool,
    ) -> (r: BackendType)
        ensures
            r == match override_value {
                Some(v) => if v@ == "kubernetes"@ || v@ == "k8s"@ {
                    BackendType::Kubernetes
                } else if v@ == "docker"@ {
                    BackendType::Docker
                } else {
                    BackendType::spec_auto_detect(kubernetes_marker, docker_marker)
                },
                None => BackendType::spec_auto_detect(kubernetes_marker, docker_marker),
            },
    {
        match override_value {
            Some(v) => {
                if str_eq(v.as_str(), "kubernetes") || str_eq(v.as_str(), "k8s") {
                    BackendType::Kubernetes
                } else if str_eq(v.as_str(), "docker") {
                    BackendType::Docker
                } else {
                    Self::auto_detect(kubernetes_marker, docker_marker)
                }
            },
            None => Self::auto_detect(kubernetes_marker, docker_marker),
        }
    }
}

/// The uniform control-plane interface both backend implementations follow.
/// Implementations perform the backend I/O; callers never branch on backend
/// identity. A call naming a group with no matching workload is a no-op,
/// not an error, and a failure to act on one workload inside a bulk
/// operation does not abort the rest.
pub trait Backend {
    /// Stop every workload carrying the given group marker.
    fn stop(&self, group: &String);

    /// Start every workload carrying the given group marker.
    fn start(&self, group: &String);

    /// Stop every workload carrying the management-enablement marker,
    /// irrespective of group.
    fn stop_all(&self);

    /// One origin-normalized metadata map per managed workload.
    fn get_labels(&self) -> Vec<Metadata>;
}

/// One workload's lifecycle phase, as the control-plane model tracks it.
pub enum WorkloadPhase {
    Running,
    Stopped,
}

/// What a bulk stop leaves behind: every managed workload stopped, none
/// added and none removed.
pub open spec fn spec_stop_all(m: Map<Seq<char>, WorkloadPhase>) -> Map<Seq<char>, WorkloadPhase> {
    Map::new(|g: Seq<char>| m.dom().contains(g), |g: Seq<char>| WorkloadPhase::Stopped)
}

/// Stopping all managed workloads is idempotent: a second bulk stop with no
/// intervening start leaves the managed set unchanged and changes no
/// workload's phase.
pub proof fn lemma_stop_all_idempotent(m: Map<Seq<char>, WorkloadPhase>)
    ensures
        spec_stop_all(spec_stop_all(m)) == spec_stop_all(m),
        spec_stop_all(m).dom() == m.dom(),
{
    assert(spec_stop_all(m).dom() =~= m.dom());
    assert(spec_stop_all(spec_stop_all(m)) =~= spec_stop_all(m));
}

} // verus!
