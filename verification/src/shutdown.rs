//! The shutdown coordinator: the guard against duplicate shutdowns, the
//! order in which workers are stopped, and the bounded wait for a worker to
//! exit.

use crate::manager::{ServiceManager, ServiceManagerView, WorkerProcess};
use crate::role::{lemma_dependents_stop_first, shutdown_order, ServiceRole, ROLE_COUNT};
use vstd::prelude::*;

verus! {

/// Seconds that a worker is given to exit before it is killed.
pub const SHUTDOWN_GRACE_SECS: u64 = 15;

/// Seconds between two looks at a worker that was asked to exit.
pub const STOP_POLL_INTERVAL_SECS: u64 = 1;

/// Milliseconds that a worker found by the final sweep is given to die
/// before it is reaped.
pub const SWEEP_SETTLE_MILLIS: u64 = 500;

/// Where a shutdown stands.
#[derive(Clone, Copy, Debug, PartialEq, Eq, Structural)]
pub enum ShutdownStage {
    /// The workers from position `index` of the shutdown order on are still
    /// to be stopped in order.
    Ordered { index: usize },
    /// The ordered stops are over; whatever still has a process is swept.
    Sweep,
    /// Nothing is left to do.
    Done,
}

/// What the surrounding program is asked to do next during a shutdown.  A
/// process that is to be stopped comes with its handle, which is out of the
/// registry from then on.
#[derive(Debug, PartialEq, Eq)]
pub enum ShutdownAction<H> {
    /// Ask the process of the worker to terminate and wait for its exit
    /// within the grace period; kill it when the period is over.
    GracefulStop { name: ServiceRole, process: WorkerProcess<H> },
    /// Kill the process of the worker at once.
    ForceStop { name: ServiceRole, process: WorkerProcess<H> },
    /// Give up the single-instance lock.
    ReleaseLock,
    /// Nothing: the shutdown is complete.
    Finished,
}

impl ShutdownStage {
    /// How far the shutdown has come: the position in the shutdown order
    /// that is next, the number of roles once the order is worked off, and
    /// one more at the end.
    pub open spec fn progress(self) -> int {
        match self {
            ShutdownStage::Ordered { index } => if index < ROLE_COUNT {
                index as int
            } else {
                ROLE_COUNT as int
            },
            ShutdownStage::Sweep => ROLE_COUNT as int,
            ShutdownStage::Done => ROLE_COUNT + 1,
        }
    }

    /// The stage that follows the ordered stop at position `index`.
    pub open spec fn after_position(index: usize) -> ShutdownStage {
        if index + 1 < ROLE_COUNT {
            ShutdownStage::Ordered { index: (index + 1) as usize }
        } else {
            ShutdownStage::Sweep
        }
    }
}

/// Stage, supervisor state and request after one step of a shutdown that
/// stands at `stage` while the supervisor is in state `manager`.
///
/// In the ordered part each worker of the shutdown order is marked stopped
/// in turn, and the first one that has a process in the registry is handed
/// out for a graceful stop.  In the sweep every worker that still has a
/// process in the registry is handed out to be killed; when none is left,
/// every record is marked stopped and the lock is released.  After that the
/// shutdown is finished.
pub open spec fn shutdown_step<H>(
    stage: ShutdownStage,
    manager: ServiceManagerView<H>,
) -> (ShutdownStage, ServiceManagerView<H>, ShutdownAction<H>)
    decreases ROLE_COUNT + 1 - stage.progress(),
{
    match stage {
        ShutdownStage::Ordered { index } if index < ROLE_COUNT => {
            let role = shutdown_order()[index as int];
            let next = ShutdownStage::after_position(index);
            match manager.registered(role) {
                Some(process) => (
                    next,
                    manager.after_stop(role),
                    ShutdownAction::GracefulStop { name: role, process },
                ),
                None => shutdown_step(next, manager.after_stop(role)),
            }
        },
        ShutdownStage::Done => (ShutdownStage::Done, manager, ShutdownAction::Finished),
        _ => match manager.first_registered() {
            Some(role) => (
                ShutdownStage::Sweep,
                manager.after_stop(role),
                ShutdownAction::ForceStop { name: role, process: manager.registered(role)->0 },
            ),
            None => (ShutdownStage::Done, manager.all_stopped(), ShutdownAction::ReleaseLock),
        },
    }
}

/// A shutdown in progress.  Only the caller that won the shutdown guard
/// holds one.
#[derive(Debug)]
pub struct Shutdown {
    stage: ShutdownStage,
}

impl View for Shutdown {
    type V = ShutdownStage;

    closed spec fn view(&self) -> ShutdownStage {
        self.stage
    }
}

impl<H> ServiceManagerView<H> {
    /// The state after a shutdown was requested.
    pub open spec fn shutdown_requested(self) -> ServiceManagerView<H> {
        ServiceManagerView { shutdown_in_progress: true, ..self }
    }

    /// Whether a shutdown request in this state starts the teardown: only
    /// the first request does.
    pub open spec fn grants_shutdown(self) -> bool {
        !self.shutdown_in_progress
    }
}

impl<H> ServiceManager<H> {
    /// Requests the shutdown of all workers.
    ///
    /// The first request gets the shutdown to run.  Every later request,
    /// also one made while the first is still running, gets nothing,
    /// changes nothing and is to return at once.
    pub fn stop_all_services(&mut self) -> (shutdown: Option<Shutdown>)
        ensures
            shutdown is Some == old(self)@.grants_shutdown(),
            shutdown matches Some(s) ==> s@ == (ShutdownStage::Ordered { index: 0 }),
            final(self)@ == old(self)@.shutdown_requested(),
            old(self)@.shutdown_in_progress ==> final(self)@ == old(self)@,
            final(self)@.well_formed(),
    {
        if self.begin_shutdown() {
            Some(Shutdown { stage: ShutdownStage::Ordered { index: 0 } })
        } else {
            None
        }
    }
}

impl Shutdown {
    #[verifier::type_invariant]
    spec fn in_range(self) -> bool {
        self.stage matches ShutdownStage::Ordered { index } ==> index < ROLE_COUNT
    }

    /// Whether the shutdown is complete.
    pub fn is_done(&self) -> (done: bool)
        ensures
            done == (self@ == ShutdownStage::Done),
    {
        self.stage == ShutdownStage::Done
    }

    /// Moves the shutdown one step on and says what is to be done now.
    pub fn next<H>(&mut self, manager: &mut ServiceManager<H>) -> (action: ShutdownAction<H>)
        ensures
            (final(self)@, final(manager)@, action) == shutdown_step(old(self)@, old(manager)@),
            final(manager)@.well_formed(),
            final(manager)@.shutdown_in_progress == old(manager)@.shutdown_in_progress,
            final(manager)@.monitor_started == old(manager)@.monitor_started,
            action is Finished <==> old(self)@ == ShutdownStage::Done,
    {
        proof {
            use_type_invariant(&*self);
            lemma_step_follows_order(old(self)@, old(manager)@);
        }
        manager.known_well_formed();
        let ghost goal = shutdown_step(old(self)@, old(manager)@);
        loop
            invariant
                goal == shutdown_step(old(self)@, old(manager)@),
                goal.1.shutdown_in_progress == old(manager)@.shutdown_in_progress,
                goal.1.monitor_started == old(manager)@.monitor_started,
                goal.2 is Finished <==> old(self)@ == ShutdownStage::Done,
                shutdown_step(self@, manager@) == goal,
                manager@.well_formed(),
                self.stage matches ShutdownStage::Ordered { index } ==> index < ROLE_COUNT,
            decreases ROLE_COUNT + 1 - self@.progress(),
        {
            match self.stage {
                ShutdownStage::Ordered { index } => {
                    let role = ServiceRole::stopped_at(index);
                    let stopped = manager.stop_service(role);
                    let next = if index + 1 < ROLE_COUNT {
                        ShutdownStage::Ordered { index: index + 1 }
                    } else {
                        ShutdownStage::Sweep
                    };
                    *self = Shutdown { stage: next };
                    if let Some(process) = stopped {
                        return ShutdownAction::GracefulStop { name: role, process };
                    }
                },
                ShutdownStage::Sweep => {
                    match manager.first_live() {
                        Some(role) => {
                            let stopped = manager.stop_service(role);
                            return ShutdownAction::ForceStop { name: role, process: stopped.unwrap() };
                        },
                        None => {
                            manager.mark_all_stopped();
                            *self = Shutdown { stage: ShutdownStage::Done };
                            return ShutdownAction::ReleaseLock;
                        },
                    }
                },
                ShutdownStage::Done => {
                    return ShutdownAction::Finished;
                },
            }
        }
    }
}

/// A second shutdown request, whether it comes during the teardown or
/// after it, is not granted and changes nothing: the teardown runs once.
pub proof fn lemma_shutdown_runs_once<H>(manager: ServiceManagerView<H>)
    ensures
        !manager.shutdown_requested().grants_shutdown(),
        manager.shutdown_requested().shutdown_requested() == manager.shutdown_requested(),
{
}

/// A step never moves a shutdown backwards.  A graceful stop is requested
/// for the worker at a position of the shutdown order that the shutdown had
/// not passed before the step and has passed after it.  A kill is requested
/// only once the whole order is worked off.  Either request hands out the
/// process that the registry held for the worker, and afterwards the
/// registry holds none for it.
pub proof fn lemma_step_follows_order<H>(stage: ShutdownStage, manager: ServiceManagerView<H>)
    ensures
        stage.progress() <= shutdown_step(stage, manager).0.progress(),
        shutdown_step(stage, manager).2 matches ShutdownAction::GracefulStop { name, process } ==> {
            &&& stage.progress() <= name.shutdown_position() < shutdown_step(stage, manager).0.progress()
            &&& shutdown_order()[name.shutdown_position()] == name
            &&& manager.registered(name) == Some(process)
            &&& shutdown_step(stage, manager).1.registered(name) is None
        },
        shutdown_step(stage, manager).2 matches ShutdownAction::ForceStop { name, process } ==> {
            &&& shutdown_step(stage, manager).0 == ShutdownStage::Sweep
            &&& manager.registered(name) == Some(process)
            &&& shutdown_step(stage, manager).1.registered(name) is None
        },
        shutdown_step(stage, manager).2 is ReleaseLock ==> {
            &&& stage != ShutdownStage::Done
            &&& shutdown_step(stage, manager).0 == ShutdownStage::Done
            &&& forall|role: ServiceRole| shutdown_step(stage, manager).1.registered(role) is None
        },
        shutdown_step(stage, manager).2 is Finished <==> stage == ShutdownStage::Done,
        shutdown_step(stage, manager).1.startup_time == manager.startup_time,
        shutdown_step(stage, manager).1.port_profile == manager.port_profile,
        shutdown_step(stage, manager).1.shutdown_in_progress == manager.shutdown_in_progress,
        shutdown_step(stage, manager).1.monitor_started == manager.monitor_started,
    decreases ROLE_COUNT + 1 - stage.progress(),
{
    match stage {
        ShutdownStage::Ordered { index } if index < ROLE_COUNT => {
            let role = shutdown_order()[index as int];
            if manager.registered(role) is None {
                lemma_step_follows_order(ShutdownStage::after_position(index), manager.after_stop(role));
            }
        },
        _ => {},
    }
}

/// In a step the workers that the shutdown has passed lose their processes
/// and nothing else gains one: when the registry holds no process of a
/// worker at a position before the stage, the same holds after the step.
pub proof fn lemma_step_clears_passed_workers<H>(stage: ShutdownStage, manager: ServiceManagerView<H>)
    requires
        forall|role: ServiceRole|
            role.shutdown_position() < stage.progress() ==> (#[trigger] manager.registered(role)) is None,
    ensures
        forall|role: ServiceRole|
            role.shutdown_position() < shutdown_step(stage, manager).0.progress() ==> (#[trigger] shutdown_step(
                stage,
                manager,
            ).1.registered(role)) is None,
        !(shutdown_step(stage, manager).2 is ForceStop),
    decreases ROLE_COUNT + 1 - stage.progress(),
{
    match stage {
        ShutdownStage::Ordered { index } if index < ROLE_COUNT => {
            let role = shutdown_order()[index as int];
            let next = ShutdownStage::after_position(index);
            assert(role.shutdown_position() == index);
            assert forall|other: ServiceRole| other.shutdown_position() < next.progress() implies (
            #[trigger] manager.after_stop(role).registered(other)) is None by {
                if other != role {
                    assert(other.shutdown_position() < index);
                    assert(manager.registered(other) is None);
                }
            }
            if manager.registered(role) is None {
                lemma_step_clears_passed_workers(next, manager.after_stop(role));
            }
        },
        ShutdownStage::Done => {},
        _ => {
            assert(manager.registered(ServiceRole::Alden) is None);
            assert(manager.registered(ServiceRole::Vault) is None);
            assert(manager.registered(ServiceRole::Core) is None);
            assert(manager.registered(ServiceRole::Synapse) is None);
        },
    }
}

/// The stage of a shutdown before its request number `k`, counted from 0,
/// when the supervisor is in state `managers[i]` at request number `i`.
/// The states are arbitrary: restarts and probes may change the table
/// between two requests.
pub open spec fn stage_before<H>(managers: Seq<ServiceManagerView<H>>, k: nat) -> ShutdownStage
    decreases k,
{
    if k == 0 {
        ShutdownStage::Ordered { index: 0 }
    } else {
        shutdown_step(stage_before(managers, (k - 1) as nat), managers[k - 1]).0
    }
}

/// Request number `k` of a shutdown, in the setting of [`stage_before`].
pub open spec fn request_at<H>(managers: Seq<ServiceManagerView<H>>, k: nat) -> ShutdownAction<H> {
    shutdown_step(stage_before(managers, k), managers[k as int]).2
}

/// A shutdown never falls back behind a stage that it reached.
pub proof fn lemma_progress_is_monotone<H>(managers: Seq<ServiceManagerView<H>>, i: nat, j: nat)
    requires
        i <= j,
    ensures
        stage_before(managers, i).progress() <= stage_before(managers, j).progress(),
    decreases j,
{
    if i < j {
        lemma_progress_is_monotone(managers, i, (j - 1) as nat);
        lemma_step_follows_order(stage_before(managers, (j - 1) as nat), managers[j - 1]);
    }
}

/// Whatever happens to the table during a shutdown: when graceful stops are
/// requested for a worker and for a worker that it depends on, directly or
/// through others, the request for the dependent worker comes strictly
/// first.
pub proof fn lemma_dependents_are_stopped_first<H>(
    managers: Seq<ServiceManagerView<H>>,
    i: nat,
    j: nat,
    dependent: ServiceRole,
    dependency: ServiceRole,
)
    requires
        dependent.needs(dependency),
        request_at(managers, i) matches ShutdownAction::GracefulStop { name, .. } && name == dependent,
        request_at(managers, j) matches ShutdownAction::GracefulStop { name, .. } && name == dependency,
    ensures
        i < j,
{
    lemma_dependents_stop_first(dependent, dependency);
    lemma_step_follows_order(stage_before(managers, i), managers[i as int]);
    lemma_step_follows_order(stage_before(managers, j), managers[j as int]);
    if j < i {
        lemma_progress_is_monotone(managers, j + 1, i);
    }
}

/// Whatever happens to the table during a shutdown: once a kill was
/// requested, no graceful stop follows.
pub proof fn lemma_sweep_comes_last<H>(managers: Seq<ServiceManagerView<H>>, i: nat, j: nat)
    requires
        i <= j,
        request_at(managers, i) is ForceStop,
    ensures
        !(request_at(managers, j) is GracefulStop),
{
    lemma_step_follows_order(stage_before(managers, i), managers[i as int]);
    lemma_step_follows_order(stage_before(managers, j), managers[j as int]);
    if i < j {
        lemma_progress_is_monotone(managers, i + 1, j);
    }
}

/// The request after request number `k` finds the supervisor in the state
/// in which request number `k` left it.
pub open spec fn left_alone_after<H>(managers: Seq<ServiceManagerView<H>>, k: nat) -> bool {
    managers[k as int + 1] == shutdown_step(stage_before(managers, k), managers[k as int]).1
}

/// The table changes only through the shutdown itself.
pub open spec fn undisturbed<H>(managers: Seq<ServiceManagerView<H>>) -> bool {
    forall|k: nat| k + 1 < managers.len() ==> #[trigger] left_alone_after(managers, k)
}

/// In a shutdown during which nothing else changes the table, every worker
/// that the shutdown has passed is without a process, so that the sweep
/// finds nothing to kill: every process is stopped gracefully and in order.
pub proof fn lemma_undisturbed_shutdown_needs_no_sweep<H>(managers: Seq<ServiceManagerView<H>>, k: nat)
    requires
        undisturbed(managers),
        k < managers.len(),
    ensures
        forall|role: ServiceRole|
            role.shutdown_position() < stage_before(managers, k).progress() ==> (
            #[trigger] managers[k as int].registered(role)) is None,
        !(request_at(managers, k) is ForceStop),
    decreases k,
{
    if k > 0 {
        let earlier = (k - 1) as nat;
        lemma_undisturbed_shutdown_needs_no_sweep(managers, earlier);
        lemma_step_clears_passed_workers(stage_before(managers, earlier), managers[earlier as int]);
        assert(left_alone_after(managers, earlier));
    }
    lemma_step_clears_passed_workers(stage_before(managers, k), managers[k as int]);
}

/// What a look at a worker that was asked to exit shows.
#[derive(Clone, Copy, Debug, PartialEq, Eq, Structural)]
pub enum ExitPoll {
    /// The process has exited.
    Exited,
    /// The process is still running.
    Running,
    /// The state of the process could not be read.
    Failed,
}

/// What follows a look at a worker that was asked to exit.
#[derive(Clone, Copy, Debug, PartialEq, Eq, Structural)]
pub enum StopWaitStep {
    /// The worker exited by itself, `after_secs` seconds into the wait.
    Exited { after_secs: u64 },
    /// Sleep for `secs` seconds, then look again.
    Wait { secs: u64 },
    /// Sleep for `after_secs` seconds, then kill the process and reap it.
    Escalate { after_secs: u64 },
}

/// Seconds waited and next step after a look at a worker that has been
/// waited for during `waited` seconds.
///
/// A worker that exited ends the wait.  A worker that is still running is
/// given another second, and is killed after it if that second completes the
/// grace period.  A worker whose state cannot be read, or whose grace period
/// is over, is killed at once.
pub open spec fn stop_wait_step(waited: u64, poll: ExitPoll) -> (u64, StopWaitStep) {
    if waited >= SHUTDOWN_GRACE_SECS {
        (waited, StopWaitStep::Escalate { after_secs: 0 })
    } else {
        match poll {
            ExitPoll::Exited => (waited, StopWaitStep::Exited { after_secs: waited }),
            ExitPoll::Failed => (waited, StopWaitStep::Escalate { after_secs: 0 }),
            ExitPoll::Running => (
                (waited + STOP_POLL_INTERVAL_SECS) as u64,
                if waited + STOP_POLL_INTERVAL_SECS < SHUTDOWN_GRACE_SECS {
                    StopWaitStep::Wait { secs: STOP_POLL_INTERVAL_SECS }
                } else {
                    StopWaitStep::Escalate { after_secs: STOP_POLL_INTERVAL_SECS }
                },
            ),
        }
    }
}

/// The bounded wait for one worker to exit after it was asked to.
#[derive(Debug)]
pub struct StopWait {
    waited_secs: u64,
}

impl View for StopWait {
    type V = u64;

    /// Seconds waited so far.
    closed spec fn view(&self) -> u64 {
        self.waited_secs
    }
}

impl StopWait {
    /// A wait that has not begun.
    pub fn new() -> (wait: StopWait)
        ensures
            wait@ == 0,
    {
        StopWait { waited_secs: 0 }
    }

    /// Seconds waited so far.
    pub fn waited_secs(&self) -> (secs: u64)
        ensures
            secs == self@,
    {
        self.waited_secs
    }

    /// Takes what a look at the worker showed and says what follows.
    pub fn observe(&mut self, poll: ExitPoll) -> (step: StopWaitStep)
        ensures
            (final(self)@, step) == stop_wait_step(old(self)@, poll),
    {
        if self.waited_secs >= SHUTDOWN_GRACE_SECS {
            return StopWaitStep::Escalate { after_secs: 0 };
        }
        match poll {
            ExitPoll::Exited => StopWaitStep::Exited { after_secs: self.waited_secs },
            ExitPoll::Failed => StopWaitStep::Escalate { after_secs: 0 },
            ExitPoll::Running => {
                self.waited_secs = self.waited_secs + STOP_POLL_INTERVAL_SECS;
                if self.waited_secs < SHUTDOWN_GRACE_SECS {
                    StopWaitStep::Wait { secs: STOP_POLL_INTERVAL_SECS }
                } else {
                    StopWaitStep::Escalate { after_secs: STOP_POLL_INTERVAL_SECS }
                }
            },
        }
    }
}

/// Seconds waited after `looks` looks that all found the worker running.
pub open spec fn waited_after(looks: nat) -> u64
    decreases looks,
{
    if looks == 0 {
        0
    } else {
        stop_wait_step(waited_after((looks - 1) as nat), ExitPoll::Running).0
    }
}

/// The wait for a worker that does not exit is bounded: each look adds a
/// second until the grace period of fifteen seconds is used up, the
/// fifteenth look ends in the kill, and no look afterwards waits again.
pub proof fn lemma_wait_is_bounded(looks: nat)
    ensures
        looks <= 15 ==> waited_after(looks) == looks,
        looks >= 15 ==> waited_after(looks) == SHUTDOWN_GRACE_SECS,
        stop_wait_step(waited_after(looks), ExitPoll::Running).1 is Wait <==> looks < 14,
    decreases looks,
{
    if looks > 0 {
        lemma_wait_is_bounded((looks - 1) as nat);
    }
}

} // verus!
