//! The launcher: the sequence of checks and spawns that brings workers up,
//! as a state machine that the surrounding program drives.
//!
//! The machine says what is to be done next ([`Launch::pending`]); the
//! program does it and reports what happened ([`Launch::advance`]).

use crate::command::{
    build_command, command_for, is_usable_runtime, report_of, runtime_candidate,
    runtime_candidates, usable_runtime, LaunchCommand, LaunchCommandView, LaunchContext,
    LaunchContextView, RuntimeReport, RuntimeReportView, RUNTIME_CANDIDATE_COUNT,
};
use crate::error::{SupervisorError, SupervisorErrorView};
use crate::manager::{ServiceManager, ServiceManagerView, WorkerProcess};
use crate::role::{launch_order, lemma_order_positions, ServiceRole, ROLE_COUNT};
use crate::status::{health_url_spec, ServicePhase};
use crate::text::{owned, text_of};
use vstd::prelude::*;

verus! {

/// What a launch is for.
#[derive(Clone, Copy, Debug, PartialEq, Eq, Structural)]
pub enum LaunchGoal {
    /// Bring up every worker and then the health monitor.
    StartAll,
    /// Bring one worker up again after it was stopped.
    Restart { name: ServiceRole },
}

impl LaunchGoal {
    /// The workers to spawn, in order.
    pub open spec fn targets(self) -> Seq<ServiceRole> {
        match self {
            LaunchGoal::StartAll => launch_order(),
            LaunchGoal::Restart { name } => seq![name],
        }
    }

    /// How many workers are to be spawned.
    pub fn target_count(&self) -> (count: usize)
        ensures
            count == self.targets().len(),
            0 < count <= ROLE_COUNT,
    {
        match self {
            LaunchGoal::StartAll => ROLE_COUNT,
            LaunchGoal::Restart { .. } => 1,
        }
    }

    /// The worker spawned at position `index`.
    pub fn target(&self, index: usize) -> (role: ServiceRole)
        requires
            index < self.targets().len(),
        ensures
            role == self.targets()[index as int],
    {
        match self {
            LaunchGoal::StartAll => ServiceRole::launched_at(index),
            LaunchGoal::Restart { name } => *name,
        }
    }
}

/// Where a launch stands: what it is waiting for.
#[derive(Debug)]
enum LaunchStage {
    /// For the outcome of binding the port of target `index`.
    Preflight { index: usize },
    /// For the version check of runtime candidate `candidate`.
    Runtime { candidate: usize },
    /// For the look-up of the entry point of target `index`.
    Script { index: usize, runtime: String },
    /// For the spawn of target `index` from the entry point at `script`.
    Spawn { index: usize, runtime: String, script: String },
    /// For the health monitor to be started.
    Monitor,
    /// For nothing: every step succeeded.
    Done,
    /// For nothing: a step failed.
    Failed { error: SupervisorError },
}

/// What a [`LaunchStage`] holds.
pub enum LaunchStageView {
    Preflight { index: usize },
    Runtime { candidate: usize },
    Script { index: usize, runtime: Seq<char> },
    Spawn { index: usize, runtime: Seq<char>, script: Seq<char> },
    Monitor,
    Done,
    Failed { error: SupervisorErrorView },
}

impl View for LaunchStage {
    type V = LaunchStageView;

    closed spec fn view(&self) -> LaunchStageView {
        match self {
            LaunchStage::Preflight { index } => LaunchStageView::Preflight { index: *index },
            LaunchStage::Runtime { candidate } => LaunchStageView::Runtime { candidate: *candidate },
            LaunchStage::Script { index, runtime } => LaunchStageView::Script {
                index: *index,
                runtime: runtime@,
            },
            LaunchStage::Spawn { index, runtime, script } => LaunchStageView::Spawn {
                index: *index,
                runtime: runtime@,
                script: script@,
            },
            LaunchStage::Monitor => LaunchStageView::Monitor,
            LaunchStage::Done => LaunchStageView::Done,
            LaunchStage::Failed { error } => LaunchStageView::Failed { error: error@ },
        }
    }
}

/// What the surrounding program is asked to do next.
#[derive(Debug, PartialEq, Eq)]
pub enum LaunchAction {
    /// Try to bind `port` on the local host and release it again.
    BindPort { name: ServiceRole, port: u16 },
    /// Run the version check of `candidate`.
    ProbeRuntime { candidate: &'static str },
    /// Look for the entry point `script_path` under the resource directory.
    CheckScript { name: ServiceRole, script_path: &'static str },
    /// Spawn the worker `name` with `command` and keep its handle.
    Spawn { name: ServiceRole, command: LaunchCommand },
    /// Start the health monitor.
    StartMonitor,
    /// Nothing: the launch ended with `result`.
    Finished { result: Result<(), SupervisorError> },
}

/// What a [`LaunchAction`] holds.
pub enum LaunchActionView {
    BindPort { name: ServiceRole, port: u16 },
    ProbeRuntime { candidate: Seq<char> },
    CheckScript { name: ServiceRole, script_path: Seq<char> },
    Spawn { name: ServiceRole, command: LaunchCommandView },
    StartMonitor,
    Finished { result: Result<(), SupervisorErrorView> },
}

impl View for LaunchAction {
    type V = LaunchActionView;

    open spec fn view(&self) -> LaunchActionView {
        match self {
            LaunchAction::BindPort { name, port } => LaunchActionView::BindPort { name: *name, port: *port },
            LaunchAction::ProbeRuntime { candidate } => LaunchActionView::ProbeRuntime {
                candidate: candidate@,
            },
            LaunchAction::CheckScript { name, script_path } => LaunchActionView::CheckScript {
                name: *name,
                script_path: script_path@,
            },
            LaunchAction::Spawn { name, command } => LaunchActionView::Spawn {
                name: *name,
                command: command@,
            },
            LaunchAction::StartMonitor => LaunchActionView::StartMonitor,
            LaunchAction::Finished { result } => LaunchActionView::Finished {
                result: match result {
                    Ok(_) => Ok(()),
                    Err(error) => Err(error@),
                },
            },
        }
    }
}

/// What the surrounding program reports back.
#[derive(Debug, PartialEq, Eq)]
pub enum LaunchEvent<H> {
    /// The port was bound (`failure` is `None`) or could not be bound, for
    /// the reason given.
    PortProbed { failure: Option<String> },
    /// The version check was run and gave `report`, or could not be run.
    RuntimeProbed { report: Option<RuntimeReport> },
    /// The entry point was looked for at `full_path`.
    ScriptChecked { full_path: String, exists: bool },
    /// The worker was spawned as `process`.
    Spawned { process: WorkerProcess<H> },
    /// The operating system refused to spawn the worker, for the reason
    /// given.
    SpawnFailed { reason: String },
    /// The health monitor is running.
    MonitorStarted,
}

/// What a [`LaunchEvent`] holds.
pub enum LaunchEventView<H> {
    PortProbed { failure: Option<Seq<char>> },
    RuntimeProbed { report: Option<RuntimeReportView> },
    ScriptChecked { full_path: Seq<char>, exists: bool },
    Spawned { process: WorkerProcess<H> },
    SpawnFailed { reason: Seq<char> },
    MonitorStarted,
}

impl<H> View for LaunchEvent<H> {
    type V = LaunchEventView<H>;

    open spec fn view(&self) -> LaunchEventView<H> {
        match self {
            LaunchEvent::PortProbed { failure } => LaunchEventView::PortProbed {
                failure: match failure {
                    Some(reason) => Some(reason@),
                    None => None,
                },
            },
            LaunchEvent::RuntimeProbed { report } => LaunchEventView::RuntimeProbed {
                report: match report {
                    Some(r) => Some(r@),
                    None => None,
                },
            },
            LaunchEvent::ScriptChecked { full_path, exists } => LaunchEventView::ScriptChecked {
                full_path: full_path@,
                exists: *exists,
            },
            LaunchEvent::Spawned { process } => LaunchEventView::Spawned { process: *process },
            LaunchEvent::SpawnFailed { reason } => LaunchEventView::SpawnFailed { reason: reason@ },
            LaunchEvent::MonitorStarted => LaunchEventView::MonitorStarted,
        }
    }
}

/// A launch in progress.
#[derive(Debug)]
pub struct Launch {
    goal: LaunchGoal,
    context: LaunchContext,
    stage: LaunchStage,
}

/// What a [`Launch`] holds.
pub struct LaunchView {
    pub goal: LaunchGoal,
    pub context: LaunchContextView,
    pub stage: LaunchStageView,
}

impl View for Launch {
    type V = LaunchView;

    closed spec fn view(&self) -> LaunchView {
        LaunchView { goal: self.goal, context: self.context@, stage: self.stage@ }
    }
}

impl LaunchView {
    /// The positions that the stage names exist, and the stages that belong
    /// to a full startup occur only there.
    pub open spec fn in_range(self) -> bool {
        match self.stage {
            LaunchStageView::Preflight { index } => self.goal == LaunchGoal::StartAll && index
                < self.goal.targets().len(),
            LaunchStageView::Runtime { candidate } => candidate < RUNTIME_CANDIDATE_COUNT,
            LaunchStageView::Script { index, .. } => index < self.goal.targets().len(),
            LaunchStageView::Spawn { index, .. } => index < self.goal.targets().len(),
            LaunchStageView::Monitor => self.goal == LaunchGoal::StartAll,
            LaunchStageView::Done => true,
            LaunchStageView::Failed { .. } => true,
        }
    }

    /// The worker at position `index` of the launch.
    pub open spec fn target(self, index: usize) -> ServiceRole {
        self.goal.targets()[index as int]
    }

    /// The launch at another stage.
    pub open spec fn at(self, stage: LaunchStageView) -> LaunchView {
        LaunchView { stage, ..self }
    }

    /// Whether the launch is over.
    pub open spec fn is_finished(self) -> bool {
        self.stage is Done || self.stage is Failed
    }

    /// What the surrounding program is asked to do at this stage, for a
    /// supervisor in state `manager`.
    pub open spec fn pending<H>(self, manager: ServiceManagerView<H>) -> LaunchActionView {
        match self.stage {
            LaunchStageView::Preflight { index } => LaunchActionView::BindPort {
                name: self.target(index),
                port: manager.port_profile.port_spec(self.target(index)),
            },
            LaunchStageView::Runtime { candidate } => LaunchActionView::ProbeRuntime {
                candidate: runtime_candidates()[candidate as int],
            },
            LaunchStageView::Script { index, .. } => LaunchActionView::CheckScript {
                name: self.target(index),
                script_path: self.target(index).script_spec(),
            },
            LaunchStageView::Spawn { index, runtime, script } => LaunchActionView::Spawn {
                name: self.target(index),
                command: command_for(
                    runtime,
                    script,
                    manager.port_profile.port_spec(self.target(index)),
                    self.context,
                ),
            },
            LaunchStageView::Monitor => LaunchActionView::StartMonitor,
            LaunchStageView::Done => LaunchActionView::Finished { result: Ok(()) },
            LaunchStageView::Failed { error } => LaunchActionView::Finished { result: Err(error) },
        }
    }

    /// Launch and supervisor after the launch failed with `error`: a failed
    /// restart is recorded with the worker, a failed startup leaves the
    /// table as it is.
    pub open spec fn failed<H>(
        self,
        manager: ServiceManagerView<H>,
        error: SupervisorErrorView,
    ) -> (LaunchView, ServiceManagerView<H>) {
        (
            self.at(LaunchStageView::Failed { error }),
            match self.goal {
                LaunchGoal::StartAll => manager,
                LaunchGoal::Restart { name } => manager.after_relaunch_failure(name, error.message()),
            },
        )
    }

    /// The state of the supervisor after target `index` was spawned as
    /// `process` at time `now`.
    pub open spec fn manager_after_spawn<H>(
        self,
        manager: ServiceManagerView<H>,
        index: usize,
        process: WorkerProcess<H>,
        now: u64,
    ) -> ServiceManagerView<H> {
        match self.goal {
            LaunchGoal::StartAll => manager.after_launch(self.target(index), process, now),
            LaunchGoal::Restart { name } => manager.after_relaunch(name, process, now),
        }
    }

    /// Launch and supervisor after the last target was spawned: a full
    /// startup goes on to start the health monitor unless one was started
    /// before; anything else is done.
    pub open spec fn after_last_spawn<H>(
        self,
        manager: ServiceManagerView<H>,
    ) -> (LaunchView, ServiceManagerView<H>) {
        if self.goal == LaunchGoal::StartAll && !manager.monitor_started {
            (
                self.at(LaunchStageView::Monitor),
                ServiceManagerView { monitor_started: true, ..manager },
            )
        } else {
            (self.at(LaunchStageView::Done), manager)
        }
    }

    /// After the port of target `index` was probed: the next port is
    /// probed, or the search for a runtime begins; a port that could not be
    /// bound ends the launch.
    pub open spec fn after_port_probe<H>(
        self,
        manager: ServiceManagerView<H>,
        index: usize,
        failure: Option<Seq<char>>,
    ) -> (LaunchView, ServiceManagerView<H>) {
        match failure {
            None => if index + 1 < self.goal.targets().len() {
                (self.at(LaunchStageView::Preflight { index: (index + 1) as usize }), manager)
            } else {
                (self.at(LaunchStageView::Runtime { candidate: 0 }), manager)
            },
            Some(reason) => self.failed(
                manager,
                SupervisorErrorView::PortUnavailable {
                    port: manager.port_profile.port_spec(self.target(index)),
                    name: self.target(index),
                    reason,
                },
            ),
        }
    }

    /// After the version check of runtime candidate `candidate`: a usable
    /// runtime is kept and the first entry point is looked up; otherwise the
    /// next candidate is tried, and the launch ends when none is left.
    pub open spec fn after_runtime_probe<H>(
        self,
        manager: ServiceManagerView<H>,
        candidate: usize,
        report: Option<RuntimeReportView>,
    ) -> (LaunchView, ServiceManagerView<H>) {
        if usable_runtime(report) {
            (
                self.at(
                    LaunchStageView::Script { index: 0, runtime: runtime_candidates()[candidate as int] },
                ),
                manager,
            )
        } else if candidate + 1 < RUNTIME_CANDIDATE_COUNT {
            (self.at(LaunchStageView::Runtime { candidate: (candidate + 1) as usize }), manager)
        } else {
            self.failed(manager, SupervisorErrorView::RuntimeNotFound)
        }
    }

    /// After the entry point of target `index` was looked for at
    /// `full_path`: the worker is spawned from it, or the launch ends
    /// because it is missing.
    pub open spec fn after_script_check<H>(
        self,
        manager: ServiceManagerView<H>,
        index: usize,
        runtime: Seq<char>,
        full_path: Seq<char>,
        exists: bool,
    ) -> (LaunchView, ServiceManagerView<H>) {
        if exists {
            (self.at(LaunchStageView::Spawn { index, runtime, script: full_path }), manager)
        } else {
            self.failed(manager, SupervisorErrorView::ScriptNotFound { path: full_path })
        }
    }

    /// After target `index` was spawned as `process`: the worker is
    /// recorded, its handle goes into the registry, and the next target
    /// follows.
    pub open spec fn after_spawn<H>(
        self,
        manager: ServiceManagerView<H>,
        index: usize,
        runtime: Seq<char>,
        process: WorkerProcess<H>,
        now: u64,
    ) -> (LaunchView, ServiceManagerView<H>) {
        let recorded = self.manager_after_spawn(manager, index, process, now);
        if index + 1 < self.goal.targets().len() {
            (self.at(LaunchStageView::Script { index: (index + 1) as usize, runtime }), recorded)
        } else {
            self.after_last_spawn(recorded)
        }
    }

    /// After the spawn of target `index` failed: the launch ends.
    pub open spec fn after_spawn_failure<H>(
        self,
        manager: ServiceManagerView<H>,
        index: usize,
        reason: Seq<char>,
    ) -> (LaunchView, ServiceManagerView<H>) {
        self.failed(manager, SupervisorErrorView::SpawnFailed { name: self.target(index), reason })
    }

    /// Launch and supervisor after `event` was reported at time `now`.
    ///
    /// The ports of all targets are probed first, and the first one that
    /// cannot be bound ends the launch.  Then the runtime candidates are
    /// tried in order until one qualifies.  Then, target by target, the
    /// entry point is looked up and the worker is spawned and recorded; the
    /// first failure ends the launch and leaves earlier workers running.
    /// An event that does not answer the pending request changes nothing.
    pub open spec fn step<H>(
        self,
        manager: ServiceManagerView<H>,
        event: LaunchEventView<H>,
        now: u64,
    ) -> (LaunchView, ServiceManagerView<H>) {
        match (self.stage, event) {
            (
                LaunchStageView::Preflight { index },
                LaunchEventView::PortProbed { failure },
            ) => self.after_port_probe(manager, index, failure),
            (
                LaunchStageView::Runtime { candidate },
                LaunchEventView::RuntimeProbed { report },
            ) => self.after_runtime_probe(manager, candidate, report),
            (
                LaunchStageView::Script { index, runtime },
                LaunchEventView::ScriptChecked { full_path, exists },
            ) => self.after_script_check(manager, index, runtime, full_path, exists),
            (
                LaunchStageView::Spawn { index, runtime, .. },
                LaunchEventView::Spawned { process },
            ) => self.after_spawn(manager, index, runtime, process, now),
            (
                LaunchStageView::Spawn { index, .. },
                LaunchEventView::SpawnFailed { reason },
            ) => self.after_spawn_failure(manager, index, reason),
            (LaunchStageView::Monitor, LaunchEventView::MonitorStarted) => (
                self.at(LaunchStageView::Done),
                manager,
            ),
            _ => (self, manager),
        }
    }

    /// How many targets of the launch were spawned and recorded so far.
    pub open spec fn spawned_so_far(self) -> int {
        match self.stage {
            LaunchStageView::Preflight { .. } => 0,
            LaunchStageView::Runtime { .. } => 0,
            LaunchStageView::Script { index, .. } => index as int,
            LaunchStageView::Spawn { index, .. } => index as int,
            LaunchStageView::Monitor => self.goal.targets().len() as int,
            LaunchStageView::Done => self.goal.targets().len() as int,
            LaunchStageView::Failed { .. } => 0,
        }
    }

    /// Every target that a full startup spawned so far has its record in the
    /// table, in phase `Starting` and with its process.
    pub open spec fn spawned_are_starting<H>(self, manager: ServiceManagerView<H>) -> bool {
        self.goal == LaunchGoal::StartAll ==> forall|k: int|
            0 <= k < self.spawned_so_far() ==> is_starting(manager, #[trigger] launch_order()[k])
    }
}

/// The table holds a record of `role` in phase `Starting` with its process.
pub open spec fn is_starting<H>(manager: ServiceManagerView<H>, role: ServiceRole) -> bool {
    &&& manager.services.contains_key(role)
    &&& manager.services[role].status == ServicePhase::Starting
    &&& manager.services[role].pid is Some
}

impl Launch {
    #[verifier::type_invariant]
    spec fn consistent(self) -> bool {
        self@.in_range()
    }

    /// A startup of all workers, before its first step.
    pub fn start_all(context: LaunchContext) -> (launch: Launch)
        ensures
            launch@ == (LaunchView {
                goal: LaunchGoal::StartAll,
                context: context@,
                stage: LaunchStageView::Preflight { index: 0 },
            }),
            launch@.in_range(),
    {
        Launch { goal: LaunchGoal::StartAll, context, stage: LaunchStage::Preflight { index: 0 } }
    }

    /// A relaunch of the worker `name`, before its first step.  A relaunch
    /// probes no ports and starts no monitor.
    pub fn restart(name: ServiceRole, context: LaunchContext) -> (launch: Launch)
        ensures
            launch@ == (LaunchView {
                goal: LaunchGoal::Restart { name },
                context: context@,
                stage: LaunchStageView::Runtime { candidate: 0 },
            }),
            launch@.in_range(),
    {
        Launch {
            goal: LaunchGoal::Restart { name },
            context,
            stage: LaunchStage::Runtime { candidate: 0 },
        }
    }

    /// Whether the launch is over.
    pub fn is_finished(&self) -> (finished: bool)
        ensures
            finished == self@.is_finished(),
    {
        match &self.stage {
            LaunchStage::Done => true,
            LaunchStage::Failed { .. } => true,
            _ => false,
        }
    }

    /// What the surrounding program is asked to do next.
    pub fn pending<H>(&self, manager: &ServiceManager<H>) -> (action: LaunchAction)
        ensures
            action@ == self@.pending(manager@),
            self@.in_range(),
    {
        proof {
            use_type_invariant(self);
        }
        let profile = manager.port_profile();
        match &self.stage {
            LaunchStage::Preflight { index } => {
                let name = self.goal.target(*index);
                LaunchAction::BindPort { name, port: profile.port_for(name) }
            },
            LaunchStage::Runtime { candidate } => LaunchAction::ProbeRuntime {
                candidate: runtime_candidate(*candidate),
            },
            LaunchStage::Script { index, .. } => {
                let name = self.goal.target(*index);
                LaunchAction::CheckScript { name, script_path: name.script_path() }
            },
            LaunchStage::Spawn { index, runtime, script } => {
                let name = self.goal.target(*index);
                LaunchAction::Spawn {
                    name,
                    command: build_command(runtime, script, profile.port_for(name), &self.context),
                }
            },
            LaunchStage::Monitor => LaunchAction::StartMonitor,
            LaunchStage::Done => LaunchAction::Finished { result: Ok(()) },
            LaunchStage::Failed { error } => LaunchAction::Finished { result: Err(error.duplicate()) },
        }
    }

    /// Ends the launch with `error`; a failed restart is recorded with the
    /// worker.
    fn fail<H>(
        goal: LaunchGoal,
        context: LaunchContext,
        manager: &mut ServiceManager<H>,
        error: SupervisorError,
    ) -> (next: Launch)
        ensures
            next@ == (LaunchView {
                goal,
                context: context@,
                stage: LaunchStageView::Failed { error: error@ },
            }),
            final(manager)@ == next@.failed(old(manager)@, error@).1,
    {
        match goal {
            LaunchGoal::StartAll => {},
            LaunchGoal::Restart { name } => {
                manager.record_relaunch_failure(name, error.message());
            },
        }
        Launch { goal, context, stage: LaunchStage::Failed { error } }
    }

    fn port_probed<H>(
        goal: LaunchGoal,
        context: LaunchContext,
        manager: &mut ServiceManager<H>,
        index: usize,
        failure: Option<String>,
    ) -> (next: Launch)
        requires
            goal == LaunchGoal::StartAll,
            index < goal.targets().len(),
        ensures
            (next@, final(manager)@) == (LaunchView {
                goal,
                context: context@,
                stage: LaunchStageView::Preflight { index },
            }).after_port_probe(old(manager)@, index, text_of(failure)),
            next@.in_range(),
    {
        match failure {
            None => {
                if index + 1 < goal.target_count() {
                    Launch { goal, context, stage: LaunchStage::Preflight { index: index + 1 } }
                } else {
                    Launch { goal, context, stage: LaunchStage::Runtime { candidate: 0 } }
                }
            },
            Some(reason) => {
                let name = goal.target(index);
                let port = manager.port_profile().port_for(name);
                Launch::fail(goal, context, manager, SupervisorError::PortUnavailable { port, name, reason })
            },
        }
    }

    fn runtime_probed<H>(
        goal: LaunchGoal,
        context: LaunchContext,
        manager: &mut ServiceManager<H>,
        candidate: usize,
        report: Option<RuntimeReport>,
    ) -> (next: Launch)
        requires
            candidate < RUNTIME_CANDIDATE_COUNT,
        ensures
            (next@, final(manager)@) == (LaunchView {
                goal,
                context: context@,
                stage: LaunchStageView::Runtime { candidate },
            }).after_runtime_probe(old(manager)@, candidate, report_of(report)),
            next@.in_range(),
    {
        if is_usable_runtime(&report) {
            Launch {
                goal,
                context,
                stage: LaunchStage::Script { index: 0, runtime: owned(runtime_candidate(candidate)) },
            }
        } else if candidate + 1 < RUNTIME_CANDIDATE_COUNT {
            Launch { goal, context, stage: LaunchStage::Runtime { candidate: candidate + 1 } }
        } else {
            Launch::fail(goal, context, manager, SupervisorError::RuntimeNotFound)
        }
    }

    fn script_checked<H>(
        goal: LaunchGoal,
        context: LaunchContext,
        manager: &mut ServiceManager<H>,
        index: usize,
        runtime: String,
        full_path: String,
        exists: bool,
    ) -> (next: Launch)
        requires
            index < goal.targets().len(),
        ensures
            (next@, final(manager)@) == (LaunchView {
                goal,
                context: context@,
                stage: LaunchStageView::Script { index, runtime: runtime@ },
            }).after_script_check(old(manager)@, index, runtime@, full_path@, exists),
            next@.in_range(),
    {
        if exists {
            Launch { goal, context, stage: LaunchStage::Spawn { index, runtime, script: full_path } }
        } else {
            Launch::fail(goal, context, manager, SupervisorError::ScriptNotFound { path: full_path })
        }
    }

    fn spawned<H>(
        before: Ghost<LaunchView>,
        goal: LaunchGoal,
        context: LaunchContext,
        manager: &mut ServiceManager<H>,
        index: usize,
        runtime: String,
        process: WorkerProcess<H>,
        now: u64,
    ) -> (next: Launch)
        requires
            before@.goal == goal,
            before@.context == context@,
            index < goal.targets().len(),
        ensures
            (next@, final(manager)@) == before@.after_spawn(old(manager)@, index, runtime@, process, now),
            next@.in_range(),
    {
        let monitor_running: bool = manager.is_monitor_started();
        match goal {
            LaunchGoal::StartAll => {
                manager.record_launch(goal.target(index), process, now);
            },
            LaunchGoal::Restart { name } => {
                manager.record_relaunch(name, process, now);
            },
        }
        if index + 1 < goal.target_count() {
            Launch { goal, context, stage: LaunchStage::Script { index: index + 1, runtime } }
        } else if goal == LaunchGoal::StartAll && !monitor_running {
            manager.claim_monitor();
            Launch { goal, context, stage: LaunchStage::Monitor }
        } else {
            Launch { goal, context, stage: LaunchStage::Done }
        }
    }

    fn spawn_failed<H>(
        before: Ghost<LaunchView>,
        goal: LaunchGoal,
        context: LaunchContext,
        manager: &mut ServiceManager<H>,
        index: usize,
        reason: String,
    ) -> (next: Launch)
        requires
            before@.goal == goal,
            before@.context == context@,
            index < goal.targets().len(),
        ensures
            (next@, final(manager)@) == before@.after_spawn_failure(old(manager)@, index, reason@),
            next@.in_range(),
    {
        let name = goal.target(index);
        Launch::fail(goal, context, manager, SupervisorError::SpawnFailed { name, reason })
    }

    /// Takes the report of what happened to the pending request, at time
    /// `now`, and moves the launch on.  The handle of a spawned worker goes
    /// into the registry; a handle that the registry still held for that
    /// worker is dropped.
    pub fn advance<H>(self, manager: &mut ServiceManager<H>, event: LaunchEvent<H>, now: u64) -> (next: Launch)
        ensures
            (next@, final(manager)@) == self@.step(old(manager)@, event@, now),
            next@.in_range(),
            final(manager)@.well_formed(),
            self@.spawned_are_starting(old(manager)@) ==> next@.spawned_are_starting(final(manager)@),
    {
        proof {
            use_type_invariant(&self);
            if self@.spawned_are_starting(manager@) {
                lemma_step_keeps_spawned_starting(self@, manager@, event@, now);
            }
        }
        let ghost before = self@;
        let Launch { goal, context, stage } = self;
        let next = match (stage, event) {
            (
                LaunchStage::Preflight { index },
                LaunchEvent::PortProbed { failure },
            ) => Launch::port_probed(goal, context, manager, index, failure),
            (
                LaunchStage::Runtime { candidate },
                LaunchEvent::RuntimeProbed { report },
            ) => Launch::runtime_probed(goal, context, manager, candidate, report),
            (
                LaunchStage::Script { index, runtime },
                LaunchEvent::ScriptChecked { full_path, exists },
            ) => Launch::script_checked(goal, context, manager, index, runtime, full_path, exists),
            (
                LaunchStage::Spawn { index, runtime, .. },
                LaunchEvent::Spawned { process },
            ) => Launch::spawned(Ghost(before), goal, context, manager, index, runtime, process, now),
            (
                LaunchStage::Spawn { index, .. },
                LaunchEvent::SpawnFailed { reason },
            ) => Launch::spawn_failed(Ghost(before), goal, context, manager, index, reason),
            (LaunchStage::Monitor, LaunchEvent::MonitorStarted) => Launch {
                goal,
                context,
                stage: LaunchStage::Done,
            },
            (stage, _) => Launch { goal, context, stage },
        };
        manager.known_well_formed();
        next
    }
}

impl<H> ServiceManager<H> {
    /// Begins the startup of all workers under the supervisor's profile.
    ///
    /// The launch that is returned asks, step by step, for the ports to be
    /// probed, a runtime to be found, each worker to be spawned and at last
    /// the health monitor to be started; see [`Launch::advance`].
    pub fn start_all_services(&self, context: LaunchContext) -> (launch: Launch)
        ensures
            launch@ == (LaunchView {
                goal: LaunchGoal::StartAll,
                context: context@,
                stage: LaunchStageView::Preflight { index: 0 },
            }),
            launch@.in_range(),
            launch@.spawned_are_starting(self@),
    {
        Launch::start_all(context)
    }
}

/// A step keeps a launch within its range, and it keeps what a full startup
/// has achieved: the workers spawned so far are still starting afterwards,
/// together with the one that the step may have spawned.
pub proof fn lemma_step_keeps_spawned_starting<H>(
    launch: LaunchView,
    manager: ServiceManagerView<H>,
    event: LaunchEventView<H>,
    now: u64,
)
    requires
        launch.in_range(),
        launch.spawned_are_starting(manager),
    ensures
        launch.step(manager, event, now).0.in_range(),
        launch.step(manager, event, now).0.spawned_are_starting(launch.step(manager, event, now).1),
{
    let (next, after) = launch.step(manager, event, now);
    if launch.goal == LaunchGoal::StartAll {
        assert forall|k: int| 0 <= k < next.spawned_so_far() implies is_starting(
            after,
            #[trigger] launch_order()[k],
        ) by {
            if k < launch.spawned_so_far() {
                assert(is_starting(manager, launch_order()[k]));
            }
        }
    }
}

/// A port that cannot be bound ends a startup at once: the failure names the
/// worker and the port, the table and the registry stay as they were, and
/// since ports are probed before anything else, nothing was spawned.
pub proof fn lemma_bound_port_ends_startup<H>(
    launch: LaunchView,
    manager: ServiceManagerView<H>,
    reason: Seq<char>,
    now: u64,
)
    requires
        launch.in_range(),
        launch.stage is Preflight,
    ensures
        launch.spawned_so_far() == 0,
        !(launch.pending(manager) is Spawn),
        launch.step(manager, LaunchEventView::PortProbed { failure: Some(reason) }, now).1 == manager,
        launch.step(manager, LaunchEventView::PortProbed { failure: Some(reason) }, now).0.pending(manager)
            == (LaunchActionView::Finished {
            result: Err(
                SupervisorErrorView::PortUnavailable {
                    port: manager.port_profile.port_spec(launch.target(launch.stage->Preflight_index)),
                    name: launch.target(launch.stage->Preflight_index),
                    reason,
                },
            ),
        }),
{
}

/// After a startup that ran to its end without a failure, and without other
/// changes to the table in between, every one of the four workers has a
/// record in phase `Starting`, with its process, whose handle the registry
/// holds, and with the health URL of the port that the profile assigns to
/// it.
pub proof fn lemma_startup_leaves_all_starting<H>(
    launch: LaunchView,
    manager: ServiceManagerView<H>,
    role: ServiceRole,
)
    requires
        manager.well_formed(),
        launch.goal == LaunchGoal::StartAll,
        launch.stage is Done || launch.stage is Monitor,
        launch.spawned_are_starting(manager),
    ensures
        manager.services.contains_key(role),
        manager.services[role].status == ServicePhase::Starting,
        manager.services[role].pid is Some,
        manager.processes.contains_key(role),
        manager.services[role].port == manager.port_profile.port_spec(role),
        manager.services[role].health_check_url == health_url_spec(manager.port_profile.port_spec(role)),
{
    lemma_order_positions(role);
    assert(is_starting(manager, launch_order()[role.launch_position()]));
}

} // verus!
