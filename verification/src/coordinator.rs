//! The restart coordinator: whether a worker is restarted now, later or
//! never, and what a restart begins with.

use crate::backoff::MAX_RESTART_ATTEMPTS;
use crate::command::{LaunchContext, LaunchContextView};
use crate::error::{SupervisorError, SupervisorErrorView};
use crate::launch::{Launch, LaunchGoal, LaunchStageView, LaunchView};
use crate::manager::{ServiceManager, ServiceManagerView, WorkerProcess};
use crate::restart::RestartDecision;
use crate::role::ServiceRole;
use crate::text::owned;
use vstd::prelude::*;

verus! {

/// What a granted or postponed restart request asks of the surrounding
/// program.
#[derive(Debug)]
pub enum RestartStep<H> {
    /// Nothing: the worker was never launched, so there is nothing to
    /// restart.
    Untracked,
    /// Nothing now: the last restart is too recent.  The request may be
    /// repeated after `remaining` seconds.
    Deferred { remaining: u64 },
    /// Tear down the process `stop`, if there is one, and then drive
    /// `launch` to bring the worker up again.  The process is out of the
    /// registry already.
    Relaunch { stop: Option<WorkerProcess<H>>, launch: Launch },
}

/// What a [`RestartStep`] holds.
pub enum RestartStepView<H> {
    Untracked,
    Deferred { remaining: u64 },
    Relaunch { stop: Option<WorkerProcess<H>>, launch: LaunchView },
}

impl<H> View for RestartStep<H> {
    type V = RestartStepView<H>;

    open spec fn view(&self) -> RestartStepView<H> {
        match self {
            RestartStep::Untracked => RestartStepView::Untracked,
            RestartStep::Deferred { remaining } => RestartStepView::Deferred { remaining: *remaining },
            RestartStep::Relaunch { stop, launch } => RestartStepView::Relaunch {
                stop: *stop,
                launch: launch@,
            },
        }
    }
}

/// The answer to a restart request, with texts as character sequences.
pub open spec fn restart_answer_of<H>(
    answer: Result<RestartStep<H>, SupervisorError>,
) -> Result<RestartStepView<H>, SupervisorErrorView> {
    match answer {
        Ok(step) => Ok(step@),
        Err(error) => Err(error@),
    }
}

impl<H> ServiceManagerView<H> {
    /// The answer to a request at time `now` to restart the worker called
    /// `service_name`.
    ///
    /// A name that no worker goes by is an error.  A worker without a record
    /// is left alone.  A worker that used up its restarts is refused.  A
    /// worker whose last restart is less than its backoff ago is postponed.
    /// Otherwise the restart begins: the recorded process is handed out for
    /// teardown and a relaunch of the worker is set up.
    pub open spec fn restart_answer(
        self,
        service_name: Seq<char>,
        context: LaunchContextView,
        now: u64,
    ) -> Result<RestartStepView<H>, SupervisorErrorView> {
        match ServiceRole::named(service_name) {
            None => Err(SupervisorErrorView::UnknownService { requested: service_name }),
            Some(role) => match self.restart_decision(role, now) {
                None => Ok(RestartStepView::Untracked),
                Some(RestartDecision::Refuse) => Err(SupervisorErrorView::MaxRestartsExceeded),
                Some(RestartDecision::Wait { remaining }) => Ok(RestartStepView::Deferred { remaining }),
                Some(RestartDecision::Proceed) => Ok(
                    RestartStepView::Relaunch {
                        stop: self.registered(role),
                        launch: LaunchView {
                            goal: LaunchGoal::Restart { name: role },
                            context,
                            stage: LaunchStageView::Runtime { candidate: 0 },
                        },
                    },
                ),
            },
        }
    }

    /// The state after a request at time `now` to restart the worker called
    /// `service_name`: only a restart that begins changes it, by taking the
    /// worker's process out of the registry.
    pub open spec fn after_restart_request(self, service_name: Seq<char>, now: u64) -> ServiceManagerView<H> {
        match ServiceRole::named(service_name) {
            Some(role) if self.restart_decision(role, now) == Some(RestartDecision::Proceed) => {
                self.after_release(role)
            },
            _ => self,
        }
    }
}

impl<H> ServiceManager<H> {
    /// Answers a request at time `now` to restart the worker called
    /// `service_name`, from the health monitor or from an operator.
    pub fn restart_service_with_backoff(
        &mut self,
        service_name: &str,
        context: LaunchContext,
        now: u64,
    ) -> (answer: Result<RestartStep<H>, SupervisorError>)
        ensures
            restart_answer_of(answer) == old(self)@.restart_answer(service_name@, context@, now),
            final(self)@ == old(self)@.after_restart_request(service_name@, now),
            final(self)@.well_formed(),
            forall|role: ServiceRole|
                ServiceRole::named(service_name@) == Some(role) && old(self)@.services.contains_key(role)
                    && old(self)@.services[role].restart_count >= MAX_RESTART_ATTEMPTS ==> {
                    &&& answer matches Err(SupervisorError::MaxRestartsExceeded)
                    &&& final(self)@ == old(self)@
                },
    {
        self.known_well_formed();
        let role = match ServiceRole::from_name(service_name) {
            Some(role) => role,
            None => {
                return Err(SupervisorError::UnknownService { requested: owned(service_name) });
            },
        };
        match self.restart_decision(role, now) {
            None => Ok(RestartStep::Untracked),
            Some(RestartDecision::Refuse) => Err(SupervisorError::MaxRestartsExceeded),
            Some(RestartDecision::Wait { remaining }) => Ok(RestartStep::Deferred { remaining }),
            Some(RestartDecision::Proceed) => {
                let stop = self.release_handle(role);
                Ok(RestartStep::Relaunch { stop, launch: Launch::restart(role, context) })
            },
        }
    }
}

} // verus!
