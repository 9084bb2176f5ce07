//! The health snapshot: every worker's record and a summary of them.

use crate::status::{ServicePhase, ServiceStatus, ServiceStatusView};
use vstd::prelude::*;

verus! {

/// Summary of the workers' phases.
#[derive(Clone, Copy, Debug, PartialEq, Eq, Structural)]
pub enum OverallStatus {
    /// Every worker is running.
    Healthy,
    /// Some workers are running, others are not.
    Degraded,
    /// No worker is running.
    Unhealthy,
}

impl OverallStatus {
    /// The lower-case label under which the summary is reported.
    pub open spec fn label_spec(self) -> Seq<char> {
        match self {
            OverallStatus::Healthy => "healthy"@,
            OverallStatus::Degraded => "degraded"@,
            OverallStatus::Unhealthy => "unhealthy"@,
        }
    }

    /// The lower-case label under which the summary is reported.
    pub fn as_str(&self) -> (label: &'static str)
        ensures
            label@ == self.label_spec(),
    {
        match self {
            OverallStatus::Healthy => "healthy",
            OverallStatus::Degraded => "degraded",
            OverallStatus::Unhealthy => "unhealthy",
        }
    }
}

/// The records of a list of workers, with texts as character sequences.
pub open spec fn status_views(statuses: Seq<ServiceStatus>) -> Seq<ServiceStatusView> {
    statuses.map_values(|status: ServiceStatus| status@)
}

/// Every one of the workers is running.
pub open spec fn all_running(statuses: Seq<ServiceStatusView>) -> bool {
    forall|i: int| 0 <= i < statuses.len() ==> (#[trigger] statuses[i]).status == ServicePhase::Running
}

/// At least one of the workers is running.
pub open spec fn any_running(statuses: Seq<ServiceStatusView>) -> bool {
    exists|i: int| 0 <= i < statuses.len() && (#[trigger] statuses[i]).status == ServicePhase::Running
}

/// The summary of the given workers: healthy if all are running, degraded
/// if some but not all are, unhealthy if none is.
pub open spec fn overall_status_of(statuses: Seq<ServiceStatusView>) -> OverallStatus {
    if all_running(statuses) {
        OverallStatus::Healthy
    } else if any_running(statuses) {
        OverallStatus::Degraded
    } else {
        OverallStatus::Unhealthy
    }
}

/// A snapshot of the whole system, computed on demand.
#[derive(Debug, PartialEq, Eq)]
pub struct SystemHealth {
    pub services: Vec<ServiceStatus>,
    pub overall_status: OverallStatus,
    /// When the supervisor itself started, in seconds since the epoch.
    pub startup_time: u64,
}

/// What a [`SystemHealth`] holds, with texts as character sequences.
pub struct SystemHealthView {
    pub services: Seq<ServiceStatusView>,
    pub overall_status: OverallStatus,
    pub startup_time: u64,
}

impl View for SystemHealth {
    type V = SystemHealthView;

    open spec fn view(&self) -> SystemHealthView {
        SystemHealthView {
            services: status_views(self.services@),
            overall_status: self.overall_status,
            startup_time: self.startup_time,
        }
    }
}

/// Summarises the phases of the given workers.
pub fn overall_status(services: &Vec<ServiceStatus>) -> (overall: OverallStatus)
    ensures
        overall == overall_status_of(status_views(services@)),
{
    let ghost views = status_views(services@);
    let mut all = true;
    let mut any = false;
    let mut i: usize = 0;
    while i < services.len()
        invariant
            i <= services.len(),
            views == status_views(services@),
            all == (forall|k: int| 0 <= k < i ==> (#[trigger] views[k]).status == ServicePhase::Running),
            any == (exists|k: int| 0 <= k < i && (#[trigger] views[k]).status == ServicePhase::Running),
        decreases services.len() - i,
    {
        assert(views[i as int] == services@[i as int]@);
        if services[i].is_running() {
            any = true;
        } else {
            all = false;
        }
        i = i + 1;
    }
    if all {
        OverallStatus::Healthy
    } else if any {
        OverallStatus::Degraded
    } else {
        OverallStatus::Unhealthy
    }
}

impl SystemHealth {
    /// The snapshot that reports the given records.
    pub fn new(services: Vec<ServiceStatus>, startup_time: u64) -> (health: SystemHealth)
        ensures
            health@.services == status_views(services@),
            health@.overall_status == overall_status_of(status_views(services@)),
            health@.startup_time == startup_time,
    {
        let overall = overall_status(&services);
        SystemHealth { services, overall_status: overall, startup_time }
    }
}

} // verus!
