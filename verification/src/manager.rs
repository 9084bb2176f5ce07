//! The supervisor's state: the status table, the process registry and the
//! flags that guard the monitor and the shutdown.
//!
//! The registry holds the handles of the worker processes.  What a handle
//! is belongs to the surrounding program; the supervisor only keeps it, and
//! hands it out again when the process is to be torn down.

use crate::backoff::lemma_backoff_sequence;
use crate::health::{overall_status_of, status_views, SystemHealth};
use crate::probe::{ProbeOutcome, ProbeOutcomeView, ProbeVerdict, PROBE_TIMEOUT_SECS};
use crate::profile::PortProfile;
use crate::restart::RestartDecision;
use crate::role::ServiceRole;
use crate::status::{ServiceStatus, ServiceStatusView};
use crate::table::RoleTable;
use vstd::prelude::*;

verus! {

/// A worker to probe: the URL to send the health request to, and the
/// seconds after which the request is given up.  The limit applies to each
/// request by itself, whatever the pace of the monitor.
#[derive(Debug, PartialEq, Eq)]
pub struct ProbeTarget {
    pub name: ServiceRole,
    pub url: String,
    pub timeout_secs: u64,
}

/// What a [`ProbeTarget`] holds, with the URL as a character sequence.
pub struct ProbeTargetView {
    pub name: ServiceRole,
    pub url: Seq<char>,
    pub timeout_secs: u64,
}

impl View for ProbeTarget {
    type V = ProbeTargetView;

    open spec fn view(&self) -> ProbeTargetView {
        ProbeTargetView { name: self.name, url: self.url@, timeout_secs: self.timeout_secs }
    }
}

/// The probe targets of a list, with URLs as character sequences.
pub open spec fn target_views(targets: Seq<ProbeTarget>) -> Seq<ProbeTargetView> {
    targets.map_values(|target: ProbeTarget| target@)
}

impl ServiceStatusView {
    /// What is needed to probe the worker.
    pub open spec fn probe_target(self) -> ProbeTargetView {
        ProbeTargetView {
            name: self.name,
            url: self.health_check_url,
            timeout_secs: PROBE_TIMEOUT_SECS,
        }
    }
}

/// A process taken out of the registry: its identifier and its handle.
#[derive(Debug, PartialEq, Eq)]
pub struct WorkerProcess<H> {
    pub pid: u32,
    pub handle: H,
}

/// The record of a worker together with the handle of its process.
#[derive(Debug)]
struct WorkerEntry<H> {
    status: ServiceStatus,
    handle: Option<H>,
}

/// State of the supervisor, for process handles of type `H`.
#[derive(Debug)]
pub struct ServiceManager<H> {
    workers: RoleTable<WorkerEntry<H>>,
    startup_time: u64,
    port_profile: PortProfile,
    shutdown_in_progress: bool,
    monitor_started: bool,
}

/// What a [`ServiceManager`] holds.
pub struct ServiceManagerView<H> {
    /// The status table: the record of each worker launched so far.
    pub services: Map<ServiceRole, ServiceStatusView>,
    /// The process registry: the handle of each worker process that is
    /// believed alive.
    pub processes: Map<ServiceRole, H>,
    /// When the supervisor itself started, in seconds since the epoch.
    pub startup_time: u64,
    pub port_profile: PortProfile,
    /// A shutdown was requested.
    pub shutdown_in_progress: bool,
    /// The health monitor was started.
    pub monitor_started: bool,
}

impl<H> ServiceManagerView<H> {
    /// Every record in the table is well formed, sits under its own role and
    /// carries the port that the profile assigns to that role; and the
    /// registry holds a handle for exactly the workers whose record names a
    /// process.
    pub open spec fn well_formed(self) -> bool {
        &&& forall|role: ServiceRole| #[trigger]
            self.services.contains_key(role) ==> {
                &&& self.services[role].well_formed()
                &&& self.services[role].name == role
                &&& self.services[role].port == self.port_profile.port_spec(role)
            }
        &&& forall|role: ServiceRole| #[trigger]
            self.processes.contains_key(role) <==> self.process_of(role) is Some
    }

    /// The state with the record of `role` replaced by `status`.
    pub open spec fn with_status(self, role: ServiceRole, status: ServiceStatusView) -> ServiceManagerView<H> {
        ServiceManagerView { services: self.services.insert(role, status), ..self }
    }

    /// The state with no handle for `role` in the registry.
    pub open spec fn without_handle(self, role: ServiceRole) -> ServiceManagerView<H> {
        ServiceManagerView { processes: self.processes.remove(role), ..self }
    }

    /// The state with `handle` in the registry for `role`.
    pub open spec fn with_handle(self, role: ServiceRole, handle: H) -> ServiceManagerView<H> {
        ServiceManagerView { processes: self.processes.insert(role, handle), ..self }
    }

    /// The records of the table in launch order.
    pub open spec fn listed(self) -> Seq<ServiceStatusView> {
        self.listed_with(
            self.listed_with(
                self.listed_with(self.listed_with(Seq::empty(), ServiceRole::Alden), ServiceRole::Vault),
                ServiceRole::Core,
            ),
            ServiceRole::Synapse,
        )
    }

    /// `list` followed by the record of `role`, if there is one.
    pub open spec fn listed_with(
        self,
        list: Seq<ServiceStatusView>,
        role: ServiceRole,
    ) -> Seq<ServiceStatusView> {
        if self.services.contains_key(role) {
            list.push(self.services[role])
        } else {
            list
        }
    }

    /// The process that the record of `role` names, if any.
    pub open spec fn process_of(self, role: ServiceRole) -> Option<u32> {
        if self.services.contains_key(role) {
            self.services[role].pid
        } else {
            None
        }
    }

    /// The process of `role` as the registry holds it: the identifier that
    /// the record names, with the handle.
    pub open spec fn registered(self, role: ServiceRole) -> Option<WorkerProcess<H>> {
        if self.processes.contains_key(role) && self.process_of(role) is Some {
            Some(WorkerProcess { pid: self.process_of(role)->0, handle: self.processes[role] })
        } else {
            None
        }
    }

    /// The state after a probe of `role` with the given outcome at `now`: the
    /// record of the role, if there is one, takes the probe.
    pub open spec fn after_probe(
        self,
        role: ServiceRole,
        outcome: ProbeOutcomeView,
        now: u64,
    ) -> ServiceManagerView<H> {
        if self.services.contains_key(role) {
            self.with_status(role, self.services[role].after_probe(outcome, now))
        } else {
            self
        }
    }

    /// What the monitor concludes from a probe of `role`; nothing when the
    /// role has no record.
    pub open spec fn probe_verdict(self, role: ServiceRole, outcome: ProbeOutcomeView) -> Option<ProbeVerdict> {
        if self.services.contains_key(role) {
            Some(self.services[role].probe_verdict(outcome))
        } else {
            None
        }
    }

    /// The state after `role` was spawned for the first time, or anew after
    /// a shutdown, as `process` at time `now`.
    pub open spec fn after_launch(
        self,
        role: ServiceRole,
        process: WorkerProcess<H>,
        now: u64,
    ) -> ServiceManagerView<H> {
        self.with_status(
            role,
            ServiceStatusView::launched(role, self.port_profile.port_spec(role), process.pid, now),
        ).with_handle(role, process.handle)
    }

    /// What the restart policy says about restarting `role` at `now`;
    /// nothing when the role has no record.
    pub open spec fn restart_decision(self, role: ServiceRole, now: u64) -> Option<RestartDecision> {
        if self.services.contains_key(role) {
            Some(self.services[role].restart_decision(now))
        } else {
            None
        }
    }

    /// The state after the process handle of `role` was taken out of the
    /// registry for teardown.
    pub open spec fn after_release(self, role: ServiceRole) -> ServiceManagerView<H> {
        if self.services.contains_key(role) {
            self.with_status(role, self.services[role].handle_released()).without_handle(role)
        } else {
            self
        }
    }

    /// The state after `role` was spawned again as `process` at `now`.  A
    /// role without a record gets the record of a first launch.
    pub open spec fn after_relaunch(
        self,
        role: ServiceRole,
        process: WorkerProcess<H>,
        now: u64,
    ) -> ServiceManagerView<H> {
        if self.services.contains_key(role) {
            self.with_status(role, self.services[role].relaunched(process.pid, now)).with_handle(
                role,
                process.handle,
            )
        } else {
            self.after_launch(role, process, now)
        }
    }

    /// The state after an attempt to spawn `role` again failed.
    pub open spec fn after_relaunch_failure(
        self,
        role: ServiceRole,
        reason: Seq<char>,
    ) -> ServiceManagerView<H> {
        if self.services.contains_key(role) {
            self.with_status(role, self.services[role].relaunch_failed(reason))
        } else {
            self
        }
    }

    /// The state after `role` was stopped: its record is marked and its
    /// handle is out of the registry.
    pub open spec fn after_stop(self, role: ServiceRole) -> ServiceManagerView<H> {
        if self.services.contains_key(role) {
            self.with_status(role, self.services[role].stopped()).without_handle(role)
        } else {
            self
        }
    }

    /// The state after every worker was stopped.
    pub open spec fn all_stopped(self) -> ServiceManagerView<H> {
        ServiceManagerView {
            services: Map::new(
                |role: ServiceRole| self.services.contains_key(role),
                |role: ServiceRole| self.services[role].stopped(),
            ),
            processes: Map::empty(),
            ..self
        }
    }

    /// The first role in launch order that has a process in the registry.
    pub open spec fn first_registered(self) -> Option<ServiceRole> {
        if self.registered(ServiceRole::Alden) is Some {
            Some(ServiceRole::Alden)
        } else if self.registered(ServiceRole::Vault) is Some {
            Some(ServiceRole::Vault)
        } else if self.registered(ServiceRole::Core) is Some {
            Some(ServiceRole::Core)
        } else if self.registered(ServiceRole::Synapse) is Some {
            Some(ServiceRole::Synapse)
        } else {
            None
        }
    }
}

/// The records of a table of workers.
spec fn services_of<H>(workers: Map<ServiceRole, WorkerEntry<H>>) -> Map<ServiceRole, ServiceStatusView> {
    Map::new(|role: ServiceRole| workers.contains_key(role), |role: ServiceRole| workers[role].status@)
}

/// The handles of a table of workers.
spec fn processes_of<H>(workers: Map<ServiceRole, WorkerEntry<H>>) -> Map<ServiceRole, H> {
    Map::new(
        |role: ServiceRole| workers.contains_key(role) && workers[role].handle is Some,
        |role: ServiceRole| workers[role].handle->0,
    )
}

impl<H> View for ServiceManager<H> {
    type V = ServiceManagerView<H>;

    closed spec fn view(&self) -> ServiceManagerView<H> {
        ServiceManagerView {
            services: services_of(self.workers@),
            processes: processes_of(self.workers@),
            startup_time: self.startup_time,
            port_profile: self.port_profile,
            shutdown_in_progress: self.shutdown_in_progress,
            monitor_started: self.monitor_started,
        }
    }
}

impl<H> ServiceManager<H> {
    #[verifier::type_invariant]
    spec fn consistent(self) -> bool {
        self@.well_formed()
    }

    /// The state of a supervisor that started at `startup_time` and has not
    /// launched anything yet.
    pub fn new(port_profile: PortProfile, startup_time: u64) -> (manager: ServiceManager<H>)
        ensures
            manager@ == (ServiceManagerView::<H> {
                services: Map::empty(),
                processes: Map::empty(),
                startup_time,
                port_profile,
                shutdown_in_progress: false,
                monitor_started: false,
            }),
            manager@.well_formed(),
    {
        let manager = ServiceManager {
            workers: RoleTable::new(),
            startup_time,
            port_profile,
            shutdown_in_progress: false,
            monitor_started: false,
        };
        assert(manager@.services =~= Map::empty());
        assert(manager@.processes =~= Map::empty());
        manager
    }

    /// Makes known to the caller's proof that the state is well formed, as
    /// it always is.
    pub fn known_well_formed(&self)
        ensures
            self@.well_formed(),
    {
        proof {
            use_type_invariant(self);
        }
    }

    /// The port profile that the supervisor runs under.
    pub fn port_profile(&self) -> (profile: PortProfile)
        ensures
            profile == self@.port_profile,
    {
        self.port_profile
    }

    /// When the supervisor started, in seconds since the epoch.
    pub fn startup_time(&self) -> (time: u64)
        ensures
            time == self@.startup_time,
    {
        self.startup_time
    }

    /// Whether a shutdown was requested.
    pub fn is_shutdown_in_progress(&self) -> (flag: bool)
        ensures
            flag == self@.shutdown_in_progress,
    {
        self.shutdown_in_progress
    }

    /// Whether the health monitor was started.
    pub fn is_monitor_started(&self) -> (flag: bool)
        ensures
            flag == self@.monitor_started,
    {
        self.monitor_started
    }

    /// A copy of the record of `role`, if the role was launched.
    pub fn status_of(&self, role: ServiceRole) -> (status: Option<ServiceStatus>)
        ensures
            status is Some == self@.services.contains_key(role),
            status matches Some(s) ==> s@ == self@.services[role],
    {
        match self.workers.get(role) {
            Some(entry) => Some(entry.status.duplicate()),
            None => None,
        }
    }

    /// The process that the record of `role` names, if any.
    pub fn process_of(&self, role: ServiceRole) -> (pid: Option<u32>)
        ensures
            pid == self@.process_of(role),
    {
        match self.workers.get(role) {
            Some(entry) => entry.status.pid,
            None => None,
        }
    }

    /// Whether the registry holds a handle for `role`.
    pub fn holds_handle(&self, role: ServiceRole) -> (held: bool)
        ensures
            held == self@.processes.contains_key(role),
            held == (self@.process_of(role) is Some),
    {
        proof {
            use_type_invariant(self);
            assert(self@.processes.contains_key(role) <==> self@.process_of(role) is Some);
        }
        match self.workers.get(role) {
            Some(entry) => entry.handle.is_some(),
            None => false,
        }
    }

    /// The first role in launch order that has a process in the registry.
    pub fn first_live(&self) -> (role: Option<ServiceRole>)
        ensures
            role == self@.first_registered(),
            role matches Some(r) ==> self@.registered(r) is Some,
            role is None ==> forall|r: ServiceRole| self@.registered(r) is None && self@.process_of(r) is None,
    {
        if self.holds_handle(ServiceRole::Alden) {
            Some(ServiceRole::Alden)
        } else if self.holds_handle(ServiceRole::Vault) {
            Some(ServiceRole::Vault)
        } else if self.holds_handle(ServiceRole::Core) {
            Some(ServiceRole::Core)
        } else if self.holds_handle(ServiceRole::Synapse) {
            Some(ServiceRole::Synapse)
        } else {
            None
        }
    }

    /// The current records of all workers, in launch order, with their
    /// summary and the supervisor's own start time.
    pub fn get_system_health(&self) -> (health: SystemHealth)
        ensures
            health@.services == self@.listed(),
            health@.overall_status == overall_status_of(self@.listed()),
            health@.startup_time == self@.startup_time,
    {
        let mut list: Vec<ServiceStatus> = Vec::new();
        assert(status_views(list@) =~= Seq::empty());
        self.list_role(&mut list, ServiceRole::Alden);
        self.list_role(&mut list, ServiceRole::Vault);
        self.list_role(&mut list, ServiceRole::Core);
        self.list_role(&mut list, ServiceRole::Synapse);
        SystemHealth::new(list, self.startup_time)
    }

    fn list_role(&self, list: &mut Vec<ServiceStatus>, role: ServiceRole)
        ensures
            status_views(final(list)@) == self@.listed_with(status_views(old(list)@), role),
    {
        match self.workers.get(role) {
            Some(entry) => {
                let copy = entry.status.duplicate();
                list.push(copy);
                assert(status_views(list@) =~= status_views(old(list)@).push(copy@));
            },
            None => {},
        }
    }

    /// The workers to probe in a monitoring cycle: every worker that has a
    /// record, in launch order, with the URL of its health endpoint.
    pub fn probe_targets(&self) -> (targets: Vec<ProbeTarget>)
        ensures
            target_views(targets@) == self@.listed().map_values(
                |status: ServiceStatusView| status.probe_target(),
            ),
    {
        let health = self.get_system_health();
        let ghost listed = self@.listed();
        let mut targets: Vec<ProbeTarget> = Vec::new();
        let mut i: usize = 0;
        while i < health.services.len()
            invariant
                i <= health.services.len(),
                status_views(health.services@) == listed,
                targets@.len() == i,
                forall|k: int| 0 <= k < i ==> (#[trigger] targets@[k])@ == listed[k].probe_target(),
            decreases health.services.len() - i,
        {
            let status = &health.services[i];
            assert(status_views(health.services@)[i as int] == status@);
            targets.push(
                ProbeTarget {
                    name: status.name,
                    url: status.health_check_url.clone(),
                    timeout_secs: PROBE_TIMEOUT_SECS,
                },
            );
            i = i + 1;
        }
        assert(target_views(targets@) =~= listed.map_values(
            |status: ServiceStatusView| status.probe_target(),
        ));
        targets
    }

    /// Puts `entry` in the place of `role`.
    fn put(&mut self, role: ServiceRole, entry: WorkerEntry<H>)
        requires
            !old(self)@.services.contains_key(role),
            !old(self)@.processes.contains_key(role),
            old(self)@.well_formed(),
            entry.status@.well_formed(),
            entry.status@.name == role,
            entry.status@.port == old(self)@.port_profile.port_spec(role),
            entry.handle is Some <==> entry.status@.pid is Some,
        ensures
            final(self)@.services == old(self)@.services.insert(role, entry.status@),
            final(self)@.processes == match entry.handle {
                Some(handle) => old(self)@.processes.insert(role, handle),
                None => old(self)@.processes,
            },
            final(self)@.startup_time == old(self)@.startup_time,
            final(self)@.port_profile == old(self)@.port_profile,
            final(self)@.shutdown_in_progress == old(self)@.shutdown_in_progress,
            final(self)@.monitor_started == old(self)@.monitor_started,
            final(self)@.well_formed(),
    {
        let ghost before = self.workers@;
        proof {
            let after = before.insert(role, entry);
            assert(services_of(after) =~= services_of(before).insert(role, entry.status@));
            assert(processes_of(after) =~= match entry.handle {
                Some(handle) => processes_of(before).insert(role, handle),
                None => processes_of(before),
            });
            let filled = ServiceManagerView {
                services: services_of(after),
                processes: processes_of(after),
                ..self@
            };
            assert forall|other: ServiceRole| #[trigger]
                filled.processes.contains_key(other) <==> filled.process_of(other) is Some by {
                assert(self@.processes.contains_key(other) <==> self@.process_of(other) is Some);
            }
            assert(filled.well_formed());
        }
        self.workers.insert(role, entry);
    }

    /// Takes the entry of `role` out of the table.
    fn pull(&mut self, role: ServiceRole) -> (entry: Option<WorkerEntry<H>>)
        ensures
            old(self)@.well_formed(),
            final(self)@.services == old(self)@.services.remove(role),
            final(self)@.processes == old(self)@.processes.remove(role),
            final(self)@.startup_time == old(self)@.startup_time,
            final(self)@.port_profile == old(self)@.port_profile,
            final(self)@.shutdown_in_progress == old(self)@.shutdown_in_progress,
            final(self)@.monitor_started == old(self)@.monitor_started,
            final(self)@.well_formed(),
            entry is Some == old(self)@.services.contains_key(role),
            entry matches Some(e) ==> {
                &&& e.status@ == old(self)@.services[role]
                &&& e.handle is Some == old(self)@.processes.contains_key(role)
                &&& e.handle matches Some(handle) ==> handle == old(self)@.processes[role]
            },
    {
        proof {
            use_type_invariant(&*self);
        }
        let ghost before = self.workers@;
        proof {
            let after = before.remove(role);
            assert(services_of(after) =~= services_of(before).remove(role));
            assert(processes_of(after) =~= processes_of(before).remove(role));
            let left = ServiceManagerView {
                services: services_of(after),
                processes: processes_of(after),
                ..self@
            };
            assert forall|other: ServiceRole| #[trigger]
                left.processes.contains_key(other) <==> left.process_of(other) is Some by {
                assert(self@.processes.contains_key(other) <==> self@.process_of(other) is Some);
            }
            assert(left.well_formed());
        }
        self.workers.take(role)
    }

    /// Applies the outcome of a health probe of `role` made at time `now`.
    pub fn record_probe(
        &mut self,
        role: ServiceRole,
        outcome: &ProbeOutcome,
        now: u64,
    ) -> (verdict: Option<ProbeVerdict>)
        ensures
            final(self)@ == old(self)@.after_probe(role, outcome@, now),
            verdict == old(self)@.probe_verdict(role, outcome@),
            final(self)@.well_formed(),
    {
        match self.pull(role) {
            Some(mut entry) => {
                let verdict = entry.status.record_probe(outcome, now);
                self.put(role, entry);
                assert(self@.services =~= old(self)@.after_probe(role, outcome@, now).services);
                assert(self@.processes =~= old(self)@.processes);
                Some(verdict)
            },
            None => {
                assert(self@.services =~= old(self)@.services);
                assert(self@.processes =~= old(self)@.processes);
                None
            },
        }
    }

    /// Records that `role` was spawned as `process` at time `now`: the role
    /// gets a new record in phase `Starting`, with no restarts counted and
    /// the initial backoff, and the registry keeps the handle.  A handle
    /// that the registry held for the role before is handed back.
    pub fn record_launch(
        &mut self,
        role: ServiceRole,
        process: WorkerProcess<H>,
        now: u64,
    ) -> (displaced: Option<H>)
        ensures
            final(self)@ == old(self)@.after_launch(role, process, now),
            displaced is Some == old(self)@.processes.contains_key(role),
            displaced matches Some(handle) ==> handle == old(self)@.processes[role],
            final(self)@.well_formed(),
    {
        let previous = self.pull(role);
        let status = ServiceStatus::launched(role, self.port_profile.port_for(role), process.pid, now);
        self.put(role, WorkerEntry { status, handle: Some(process.handle) });
        assert(self@.services =~= old(self)@.after_launch(role, process, now).services);
        assert(self@.processes =~= old(self)@.after_launch(role, process, now).processes);
        match previous {
            Some(entry) => entry.handle,
            None => None,
        }
    }

    /// What the restart policy says about restarting `role` at `now`.
    pub fn restart_decision(&self, role: ServiceRole, now: u64) -> (decision: Option<RestartDecision>)
        ensures
            decision == self@.restart_decision(role, now),
    {
        match self.workers.get(role) {
            Some(entry) => Some(entry.status.restart_decision(now)),
            None => None,
        }
    }

    /// Takes the process of `role` out of the registry for teardown and
    /// clears it from the record.
    pub fn release_handle(&mut self, role: ServiceRole) -> (process: Option<WorkerProcess<H>>)
        ensures
            process == old(self)@.registered(role),
            process is Some == old(self)@.process_of(role) is Some,
            final(self)@ == old(self)@.after_release(role),
            final(self)@.well_formed(),
    {
        match self.pull(role) {
            Some(entry) => {
                let WorkerEntry { mut status, handle } = entry;
                let pid = status.release_handle();
                self.put(role, WorkerEntry { status, handle: None });
                assert(self@.services =~= old(self)@.after_release(role).services);
                assert(self@.processes =~= old(self)@.after_release(role).processes);
                match (pid, handle) {
                    (Some(pid), Some(handle)) => Some(WorkerProcess { pid, handle }),
                    _ => None,
                }
            },
            None => {
                assert(self@.services =~= old(self)@.services);
                assert(self@.processes =~= old(self)@.processes);
                None
            },
        }
    }

    /// Records that `role` was spawned again as `process` at `now`.  A
    /// handle that the registry held for the role before is handed back.
    pub fn record_relaunch(
        &mut self,
        role: ServiceRole,
        process: WorkerProcess<H>,
        now: u64,
    ) -> (displaced: Option<H>)
        ensures
            final(self)@ == old(self)@.after_relaunch(role, process, now),
            displaced is Some == old(self)@.processes.contains_key(role),
            displaced matches Some(handle) ==> handle == old(self)@.processes[role],
            final(self)@.well_formed(),
    {
        match self.pull(role) {
            Some(entry) => {
                let WorkerEntry { mut status, handle } = entry;
                status.record_relaunch(process.pid, now);
                self.put(role, WorkerEntry { status, handle: Some(process.handle) });
                assert(self@.services =~= old(self)@.after_relaunch(role, process, now).services);
                assert(self@.processes =~= old(self)@.after_relaunch(role, process, now).processes);
                handle
            },
            None => {
                assert(self@.services =~= old(self)@.services);
                assert(self@.processes =~= old(self)@.processes);
                self.record_launch(role, process, now)
            },
        }
    }

    /// Records that an attempt to spawn `role` again failed.
    pub fn record_relaunch_failure(&mut self, role: ServiceRole, reason: String)
        ensures
            final(self)@ == old(self)@.after_relaunch_failure(role, reason@),
            final(self)@.well_formed(),
    {
        match self.pull(role) {
            Some(mut entry) => {
                entry.status.record_relaunch_failure(reason);
                self.put(role, entry);
                assert(self@.services =~= old(self)@.after_relaunch_failure(role, reason@).services);
                assert(self@.processes =~= old(self)@.processes);
            },
            None => {
                assert(self@.services =~= old(self)@.services);
                assert(self@.processes =~= old(self)@.processes);
            },
        }
    }

    /// Records that `role` was stopped and takes its process out of the
    /// registry: the one that is to be torn down.
    pub fn stop_service(&mut self, role: ServiceRole) -> (process: Option<WorkerProcess<H>>)
        ensures
            process == old(self)@.registered(role),
            process is Some == old(self)@.process_of(role) is Some,
            final(self)@ == old(self)@.after_stop(role),
            final(self)@.process_of(role) is None,
            final(self)@.well_formed(),
    {
        match self.pull(role) {
            Some(entry) => {
                let WorkerEntry { mut status, handle } = entry;
                let pid = status.pid;
                status.mark_stopped();
                self.put(role, WorkerEntry { status, handle: None });
                assert(self@.services =~= old(self)@.after_stop(role).services);
                assert(self@.processes =~= old(self)@.after_stop(role).processes);
                match (pid, handle) {
                    (Some(pid), Some(handle)) => Some(WorkerProcess { pid, handle }),
                    _ => None,
                }
            },
            None => {
                assert(self@.services =~= old(self)@.services);
                assert(self@.processes =~= old(self)@.processes);
                None
            },
        }
    }

    /// Marks every record stopped, once no worker has a process any more.
    pub(crate) fn mark_all_stopped(&mut self)
        requires
            forall|role: ServiceRole| old(self)@.process_of(role) is None,
        ensures
            final(self)@ == old(self)@.all_stopped(),
            final(self)@.well_formed(),
    {
        self.known_well_formed();
        self.stop_service(ServiceRole::Alden);
        self.stop_service(ServiceRole::Vault);
        self.stop_service(ServiceRole::Core);
        self.stop_service(ServiceRole::Synapse);
        assert(self@.services =~= old(self)@.all_stopped().services);
        assert(self@.processes =~= old(self)@.all_stopped().processes);
    }

    /// Claims the shutdown: returns `true` to the first caller, who is to
    /// run the teardown, and `false` to every later one.
    pub fn begin_shutdown(&mut self) -> (first: bool)
        ensures
            first == !old(self)@.shutdown_in_progress,
            final(self)@ == (ServiceManagerView { shutdown_in_progress: true, ..old(self)@ }),
            final(self)@.well_formed(),
    {
        proof {
            use_type_invariant(&*self);
        }
        let first = !self.shutdown_in_progress;
        self.shutdown_in_progress = true;
        first
    }

    /// Claims the start of the health monitor: returns `true` to the first
    /// caller, who is to start it, and `false` to every later one.
    pub fn claim_monitor(&mut self) -> (first: bool)
        ensures
            first == !old(self)@.monitor_started,
            final(self)@ == (ServiceManagerView { monitor_started: true, ..old(self)@ }),
            final(self)@.well_formed(),
    {
        proof {
            use_type_invariant(&*self);
        }
        let first = !self.monitor_started;
        self.monitor_started = true;
        first
    }
}

/// Whatever the supervisor does to its state keeps the state well formed:
/// after a probe, a launch, the release of a handle, a relaunch or its
/// failure, and a stop, every record still obeys its rules and the registry
/// still holds a handle for exactly the workers whose record names a
/// process.
pub proof fn lemma_changes_keep_well_formed<H>(
    manager: ServiceManagerView<H>,
    role: ServiceRole,
    outcome: ProbeOutcomeView,
    process: WorkerProcess<H>,
    reason: Seq<char>,
    now: u64,
)
    requires
        manager.well_formed(),
    ensures
        manager.after_probe(role, outcome, now).well_formed(),
        manager.after_launch(role, process, now).well_formed(),
        manager.after_release(role).well_formed(),
        manager.after_relaunch(role, process, now).well_formed(),
        manager.after_relaunch_failure(role, reason).well_formed(),
        manager.after_stop(role).well_formed(),
        manager.all_stopped().well_formed(),
{
    lemma_backoff_sequence(0);
    if manager.services.contains_key(role) {
        lemma_backoff_sequence(manager.services[role].restart_count as nat);
        lemma_backoff_sequence(manager.services[role].restart_count as nat + 1);
    }
    assert forall|other: ServiceRole| #[trigger]
        manager.processes.contains_key(other) <==> manager.process_of(other) is Some by {}
    lemma_keeps_registry(manager, manager.after_probe(role, outcome, now), role);
    lemma_keeps_registry(manager, manager.after_launch(role, process, now), role);
    lemma_keeps_registry(manager, manager.after_release(role), role);
    lemma_keeps_registry(manager, manager.after_relaunch(role, process, now), role);
    lemma_keeps_registry(manager, manager.after_relaunch_failure(role, reason), role);
    lemma_keeps_registry(manager, manager.after_stop(role), role);
    let stopped = manager.all_stopped();
    assert forall|other: ServiceRole| #[trigger]
        stopped.processes.contains_key(other) <==> stopped.process_of(other) is Some by {}
}

/// No change removes a record from the table: a worker that was launched
/// once stays listed, with its counters and history open to inspection.
pub proof fn lemma_records_are_never_removed<H>(
    manager: ServiceManagerView<H>,
    role: ServiceRole,
    outcome: ProbeOutcomeView,
    process: WorkerProcess<H>,
    reason: Seq<char>,
    now: u64,
    listed: ServiceRole,
)
    requires
        manager.services.contains_key(listed),
    ensures
        manager.after_probe(role, outcome, now).services.contains_key(listed),
        manager.after_launch(role, process, now).services.contains_key(listed),
        manager.after_release(role).services.contains_key(listed),
        manager.after_relaunch(role, process, now).services.contains_key(listed),
        manager.after_relaunch_failure(role, reason).services.contains_key(listed),
        manager.after_stop(role).services.contains_key(listed),
        manager.all_stopped().services.contains_key(listed),
{
}

/// When a change touches only `role` and leaves registry and record of
/// `role` in step, registry and table agree after it as they did before.
proof fn lemma_keeps_registry<H>(before: ServiceManagerView<H>, after: ServiceManagerView<H>, role: ServiceRole)
    requires
        forall|other: ServiceRole| #[trigger]
            before.processes.contains_key(other) <==> before.process_of(other) is Some,
        forall|other: ServiceRole|
            other != role ==> (after.processes.contains_key(other) <==> before.processes.contains_key(other))
                && after.process_of(other) == before.process_of(other),
        after.processes.contains_key(role) <==> after.process_of(role) is Some,
    ensures
        forall|other: ServiceRole| #[trigger]
            after.processes.contains_key(other) <==> after.process_of(other) is Some,
{
    assert forall|other: ServiceRole| #[trigger]
        after.processes.contains_key(other) <==> after.process_of(other) is Some by {
        if other != role {
            assert(before.processes.contains_key(other) <==> before.process_of(other) is Some);
        }
    }
}

} // verus!
