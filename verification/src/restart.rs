//! Restart policy of a single worker: when a restart may go ahead, and what
//! a restart does to the worker's record.

use crate::backoff::{
    backoff_after, lemma_backoff_monotone, lemma_backoff_sequence, next_backoff, next_backoff_spec,
    MAX_BACKOFF_SECS, MAX_RESTART_ATTEMPTS,
};
use crate::probe::ProbeOutcomeView;
use crate::status::{ServicePhase, ServiceStatus, ServiceStatusView};
use vstd::prelude::*;

verus! {

/// What the restart policy says about restarting a worker now.
#[derive(Clone, Copy, Debug, PartialEq, Eq, Structural)]
pub enum RestartDecision {
    /// The worker used up its restarts; it is left alone.
    Refuse,
    /// The last restart is too recent; `remaining` seconds of the backoff
    /// are left.
    Wait { remaining: u64 },
    /// The restart may go ahead.
    Proceed,
}

impl ServiceStatusView {
    /// The last restart happened less than the backoff ago.
    pub open spec fn in_backoff(self, now: u64) -> bool {
        self.last_restart matches Some(at) && now - at < self.restart_backoff
    }

    /// Seconds of the backoff that are left at time `now`.
    pub open spec fn remaining_backoff(self, now: u64) -> u64 {
        match self.last_restart {
            Some(at) if now >= at => (self.restart_backoff - (now - at)) as u64,
            _ => self.restart_backoff,
        }
    }

    /// What the restart policy says about restarting this worker at `now`.
    pub open spec fn restart_decision(self, now: u64) -> RestartDecision {
        if self.restart_count >= MAX_RESTART_ATTEMPTS {
            RestartDecision::Refuse
        } else if self.in_backoff(now) {
            RestartDecision::Wait { remaining: self.remaining_backoff(now) }
        } else {
            RestartDecision::Proceed
        }
    }

    /// The record after the worker's process handle was taken for teardown.
    pub open spec fn handle_released(self) -> ServiceStatusView {
        ServiceStatusView { pid: None, ..self }
    }

    /// The restart counter after one more restart; it stops at the ceiling.
    pub open spec fn bumped_restart_count(self) -> u32 {
        if self.restart_count < MAX_RESTART_ATTEMPTS {
            (self.restart_count + 1) as u32
        } else {
            self.restart_count
        }
    }

    /// The record after the worker was spawned again as process `pid` at
    /// time `now`: it is starting, the restart is counted and timed, and the
    /// backoff grows.
    pub open spec fn relaunched(self, pid: u32, now: u64) -> ServiceStatusView {
        ServiceStatusView {
            status: ServicePhase::Starting,
            pid: Some(pid),
            started_at: Some(now),
            last_health_check: None,
            error_message: None,
            restart_count: self.bumped_restart_count(),
            last_restart: Some(now),
            restart_backoff: next_backoff_spec(self.restart_backoff),
            ..self
        }
    }

    /// The record after an attempt to spawn the worker again failed for the
    /// given reason.
    pub open spec fn relaunch_failed(self, reason: Seq<char>) -> ServiceStatusView {
        ServiceStatusView { status: ServicePhase::Error, error_message: Some(reason), ..self }
    }
}

impl ServiceStatus {
    /// What the restart policy says about restarting this worker at `now`.
    pub fn restart_decision(&self, now: u64) -> (decision: RestartDecision)
        ensures
            decision == self@.restart_decision(now),
            self@.restart_count >= MAX_RESTART_ATTEMPTS ==> decision == RestartDecision::Refuse,
    {
        if self.restart_count >= MAX_RESTART_ATTEMPTS {
            return RestartDecision::Refuse;
        }
        match self.last_restart {
            Some(at) => {
                if now < at {
                    RestartDecision::Wait { remaining: self.restart_backoff }
                } else if now - at < self.restart_backoff {
                    RestartDecision::Wait { remaining: self.restart_backoff - (now - at) }
                } else {
                    RestartDecision::Proceed
                }
            },
            None => RestartDecision::Proceed,
        }
    }

    /// Records that the worker's process handle was taken for teardown and
    /// returns the process identifier that was recorded.
    pub fn release_handle(&mut self) -> (pid: Option<u32>)
        ensures
            pid == old(self)@.pid,
            final(self)@ == old(self)@.handle_released(),
            old(self)@.well_formed() ==> final(self)@.well_formed(),
    {
        self.pid.take()
    }

    /// Records that the worker was spawned again as process `pid` at `now`.
    pub fn record_relaunch(&mut self, pid: u32, now: u64)
        ensures
            final(self)@ == old(self)@.relaunched(pid, now),
            old(self)@.well_formed() ==> final(self)@.well_formed(),
            old(self)@.well_formed() ==> old(self)@.restart_backoff <= final(self)@.restart_backoff
                <= MAX_BACKOFF_SECS,
    {
        proof {
            if old(self)@.well_formed() {
                lemma_backoff_sequence(old(self)@.restart_count as nat);
                lemma_backoff_monotone(old(self)@.restart_count as nat);
            }
        }
        self.status = ServicePhase::Starting;
        self.pid = Some(pid);
        self.started_at = Some(now);
        self.last_health_check = None;
        self.error_message = None;
        if self.restart_count < MAX_RESTART_ATTEMPTS {
            self.restart_count = self.restart_count + 1;
        }
        self.last_restart = Some(now);
        self.restart_backoff = next_backoff(self.restart_backoff);
    }

    /// Records that an attempt to spawn the worker again failed.
    pub fn record_relaunch_failure(&mut self, reason: String)
        ensures
            final(self)@ == old(self)@.relaunch_failed(reason@),
            old(self)@.well_formed() ==> final(self)@.well_formed(),
    {
        self.status = ServicePhase::Error;
        self.error_message = Some(reason);
    }
}

/// One round of a worker failing: a probe that fails, followed by a restart.
pub struct FailureCycle {
    pub outcome: ProbeOutcomeView,
    pub probed_at: u64,
    pub pid: u32,
    pub restarted_at: u64,
}

/// The record of a worker after the given rounds of failing, in order.
pub open spec fn after_failure_cycles(start: ServiceStatusView, cycles: Seq<FailureCycle>) -> ServiceStatusView
    decreases cycles.len(),
{
    if cycles.len() == 0 {
        start
    } else {
        let cycle = cycles.last();
        after_failure_cycles(start, cycles.drop_last()).after_probe(
            cycle.outcome,
            cycle.probed_at,
        ).relaunched(cycle.pid, cycle.restarted_at)
    }
}

/// A failed probe leaves the backoff as it is, and each restart that follows
/// one moves it one step along 1, 2, 4, 8, 16, 30, 30, ...: after any number
/// of failed probes with a restart each and no success in between, the
/// backoff is the one that belongs to the restarts made so far, it has not
/// shrunk, and it does not exceed the ceiling.
pub proof fn lemma_backoff_grows_with_failures(start: ServiceStatusView, cycles: Seq<FailureCycle>)
    requires
        start.well_formed(),
        forall|i: int| 0 <= i < cycles.len() ==> !(#[trigger] cycles[i]).outcome.is_success(),
    ensures
        after_failure_cycles(start, cycles).well_formed(),
        after_failure_cycles(start, cycles).restart_backoff == backoff_after(
            start.restart_count as nat + cycles.len(),
        ),
        start.restart_backoff <= after_failure_cycles(start, cycles).restart_backoff
            <= MAX_BACKOFF_SECS,
    decreases cycles.len(),
{
    lemma_backoff_sequence(start.restart_count as nat);
    if cycles.len() > 0 {
        let earlier = cycles.drop_last();
        assert forall|i: int| 0 <= i < earlier.len() implies !(#[trigger] earlier[i]).outcome.is_success() by {
            assert(earlier[i] == cycles[i]);
        }
        lemma_backoff_grows_with_failures(start, earlier);
        let before = after_failure_cycles(start, earlier);
        let cycle = cycles.last();
        assert(!cycle.outcome.is_success());
        lemma_backoff_sequence(before.restart_count as nat);
        lemma_backoff_sequence(start.restart_count as nat + earlier.len());
        lemma_backoff_sequence(start.restart_count as nat + cycles.len());
        lemma_backoff_monotone(start.restart_count as nat + earlier.len());
    }
}

} // verus!
