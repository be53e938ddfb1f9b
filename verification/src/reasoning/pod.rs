//! Starting an agent pod: how each poll of its status is read, and the
//! container-status events a query reports meanwhile.
use vstd::prelude::*;

use crate::text::{owned, push_str};

verus! {

/// How long a starting pod is waited for.
pub const POD_READY_TIMEOUT_SECS: u64 = 60;

/// The interval between two polls of a starting pod.
pub const POD_POLL_INTERVAL_SECS: u64 = 2;

/// The kind of the events that report the container's status.
pub const CONTAINER_STATUS_EVENT: &'static str = "container_status";

/// A query's agent pod, ready and reachable.
#[derive(Debug, Clone)]
pub struct PrepareQueryResponse {
    pub pod_ip: String,
    pub pod_name: String,
}

/// The status of an agent pod.
#[derive(Debug, Clone)]
pub enum PodStatus {
    Running { pod_ip: String, pod_name: String },
    Pending,
    Gone,
}

/// What a poll of a starting pod decides.
#[derive(Debug, Clone)]
pub enum PodWait {
    /// The pod runs at this IP.
    Ready(String),
    /// Poll again after the interval.
    KeepWaiting,
    /// The pod will not become ready, for this reason.
    Failed(String),
}

/// Whether the wait is over: checked before each poll, from the seconds
/// elapsed since waiting began.
pub fn wait_expired(elapsed_secs: u64) -> (r: Option<PodWait>)
    ensures
        elapsed_secs >= POD_READY_TIMEOUT_SECS ==> (r matches Some(PodWait::Failed(m)) && m@
            == "timed out waiting for agent container"@),
        elapsed_secs < POD_READY_TIMEOUT_SECS ==> r is None,
{
    if elapsed_secs >= POD_READY_TIMEOUT_SECS {
        Some(PodWait::Failed(owned("timed out waiting for agent container")))
    } else {
        None
    }
}

/// Reads one poll of a starting pod's status: running is ready, pending
/// waits on, a pod that is gone failed to start, and an error in reading
/// the status fails the wait.
pub fn read_pod_status(status: &Result<PodStatus, String>) -> (r: PodWait)
    ensures
        match *status {
            Ok(PodStatus::Running { pod_ip, .. }) => r matches PodWait::Ready(ip) && ip@ == pod_ip@,
            Ok(PodStatus::Pending) => r is KeepWaiting,
            Ok(PodStatus::Gone) => r matches PodWait::Failed(m) && m@ == "agent container failed to start"@,
            Err(e) => r matches PodWait::Failed(m) && m@ == "error checking container status: "@ + e@,
        },
{
    match status {
        Ok(PodStatus::Running { pod_ip, .. }) => PodWait::Ready(pod_ip.clone()),
        Ok(PodStatus::Pending) => PodWait::KeepWaiting,
        Ok(PodStatus::Gone) => PodWait::Failed(owned("agent container failed to start")),
        Err(e) => {
            let mut m = owned("error checking container status: ");
            push_str(&mut m, e.as_str());
            PodWait::Failed(m)
        },
    }
}

/// The name of a started pod: from its running status, `unknown` otherwise.
pub fn pod_name_of(status: &PodStatus) -> (r: String)
    ensures
        match *status {
            PodStatus::Running { pod_name, .. } => r@ == pod_name@,
            _ => r@ == "unknown"@,
        },
{
    match status {
        PodStatus::Running { pod_name, .. } => pod_name.clone(),
        _ => owned("unknown"),
    }
}

/// A container-status event's payload, as `(status, message)`: `creating`
/// with `Starting agent container...` before the pod is ensured, `ready`
/// with `Agent ready` once it runs.
pub fn container_status_payload(ready: bool) -> (r: (String, String))
    ensures
        ready ==> r.0@ == "ready"@ && r.1@ == "Agent ready"@,
        !ready ==> r.0@ == "creating"@ && r.1@ == "Starting agent container..."@,
{
    if ready {
        (owned("ready"), owned("Agent ready"))
    } else {
        (owned("creating"), owned("Starting agent container..."))
    }
}

} // verus!
