//! Health monitoring: what a probe does to a worker's record, and the
//! cadence at which probes are made.

use crate::backoff::INITIAL_BACKOFF_SECS;
use crate::http::{status_code_display, status_code_text};
use crate::status::{ServicePhase, ServiceStatus, ServiceStatusView};
use crate::text::{append_decimal, decimal, text_of};
use vstd::prelude::*;
use vstd::string::*;

verus! {

/// Seconds after which a health request is given up.
pub const PROBE_TIMEOUT_SECS: u64 = 5;

/// Seconds between two rounds of probes while the workers warm up.
pub const STARTUP_PROBE_INTERVAL_SECS: u64 = 5;

/// Seconds between two rounds of probes once the warm-up is over.
pub const STEADY_PROBE_INTERVAL_SECS: u64 = 30;

/// Length of the warm-up, in seconds.
pub const STARTUP_DURATION_SECS: u64 = 60;

/// What came back from one health request.
#[derive(Debug, PartialEq, Eq)]
pub enum ProbeOutcome {
    /// The worker answered with this HTTP status code.
    Response { status: u16 },
    /// No answer arrived; `reason` describes the transport failure.
    Unreachable { reason: String },
}

/// What a [`ProbeOutcome`] holds, with texts as character sequences.
pub enum ProbeOutcomeView {
    Response { status: u16 },
    Unreachable { reason: Seq<char> },
}

impl View for ProbeOutcome {
    type V = ProbeOutcomeView;

    open spec fn view(&self) -> ProbeOutcomeView {
        match self {
            ProbeOutcome::Response { status } => ProbeOutcomeView::Response { status: *status },
            ProbeOutcome::Unreachable { reason } => ProbeOutcomeView::Unreachable { reason: reason@ },
        }
    }
}

/// What the monitor concludes from one probe.
#[derive(Clone, Copy, Debug, PartialEq, Eq, Structural)]
pub enum ProbeVerdict {
    /// The worker answered and its phase did not change.
    Healthy,
    /// The worker answered after starting up or after a failure and is now
    /// running.
    Recovered,
    /// The worker failed the probe.  `restart_scheduled` is set when it was
    /// running until now, so that a restart is due.
    Unhealthy { restart_scheduled: bool },
}

impl ProbeVerdict {
    /// Whether the probe calls for a restart of the worker.
    pub open spec fn wants_restart(self) -> bool {
        self matches ProbeVerdict::Unhealthy { restart_scheduled } && restart_scheduled
    }

    /// Whether the probe calls for a restart of the worker.
    pub fn restart_scheduled(&self) -> (scheduled: bool)
        ensures
            scheduled == self.wants_restart(),
    {
        match self {
            ProbeVerdict::Unhealthy { restart_scheduled } => *restart_scheduled,
            _ => false,
        }
    }
}

/// A status code in the 2xx class.
pub open spec fn is_success_status(status: u16) -> bool {
    200 <= status < 300
}

/// The failure text for an HTTP answer with status `code`, given the wording
/// `display` of the code where one exists: "HTTP " followed by the wording,
/// or by the bare number.
pub open spec fn http_failure_text(code: u16, display: Option<Seq<char>>) -> Seq<char> {
    "HTTP "@ + match display {
        Some(d) => d,
        None => decimal(code as nat),
    }
}

impl ProbeOutcomeView {
    /// The worker answered with a 2xx status.
    pub open spec fn is_success(self) -> bool {
        self matches ProbeOutcomeView::Response { status } && is_success_status(status)
    }

    /// The description of a failed probe that is recorded with the worker.
    pub open spec fn failure_text(self) -> Seq<char> {
        match self {
            ProbeOutcomeView::Response { status } => http_failure_text(
                status,
                if 100 <= status <= 999 {
                    Some(status_code_display(status))
                } else {
                    None
                },
            ),
            ProbeOutcomeView::Unreachable { reason } => reason,
        }
    }
}

impl ServiceStatusView {
    /// The record after a probe with the given outcome at time `now`.
    ///
    /// The time of the probe is always recorded.  A success moves a worker
    /// that was starting or failed to `Running`, clears the error and resets
    /// the restart counter and backoff; it leaves other workers as they are.
    /// A failure moves the worker to `Error` and records the reason.
    pub open spec fn after_probe(self, outcome: ProbeOutcomeView, now: u64) -> ServiceStatusView {
        if outcome.is_success() {
            if self.status == ServicePhase::Starting || self.status == ServicePhase::Error {
                ServiceStatusView {
                    status: ServicePhase::Running,
                    error_message: None,
                    restart_count: 0,
                    restart_backoff: INITIAL_BACKOFF_SECS,
                    last_health_check: Some(now),
                    ..self
                }
            } else {
                ServiceStatusView { last_health_check: Some(now), ..self }
            }
        } else {
            ServiceStatusView {
                status: ServicePhase::Error,
                error_message: Some(outcome.failure_text()),
                last_health_check: Some(now),
                ..self
            }
        }
    }

    /// What the monitor concludes from a probe with the given outcome.
    pub open spec fn probe_verdict(self, outcome: ProbeOutcomeView) -> ProbeVerdict {
        if outcome.is_success() {
            if self.status == ServicePhase::Starting || self.status == ServicePhase::Error {
                ProbeVerdict::Recovered
            } else {
                ProbeVerdict::Healthy
            }
        } else {
            ProbeVerdict::Unhealthy { restart_scheduled: self.status == ServicePhase::Running }
        }
    }
}

/// Whether `status` is in the 2xx class.
pub fn status_is_success(status: u16) -> (success: bool)
    ensures
        success == is_success_status(status),
{
    200 <= status && status < 300
}

/// The failure text for an HTTP answer with status `code`, given the wording
/// of the code where the HTTP library has one.
pub fn http_failure_message(code: u16, display: Option<String>) -> (message: String)
    ensures
        message@ == http_failure_text(code, text_of(display)),
{
    let mut message = String::from_str("HTTP ");
    match display {
        Some(d) => {
            message.append(d.as_str());
        },
        None => {
            append_decimal(&mut message, code as u64);
        },
    }
    message
}

impl ProbeOutcome {
    /// Whether the worker answered with a 2xx status.
    pub fn is_success(&self) -> (success: bool)
        ensures
            success == self@.is_success(),
    {
        match self {
            ProbeOutcome::Response { status } => status_is_success(*status),
            ProbeOutcome::Unreachable { .. } => false,
        }
    }

    /// The description of a failed probe that is recorded with the worker.
    pub fn failure_message(&self) -> (message: String)
        ensures
            message@ == self@.failure_text(),
    {
        match self {
            ProbeOutcome::Response { status } => {
                let display = status_code_text(*status);
                http_failure_message(*status, display)
            },
            ProbeOutcome::Unreachable { reason } => reason.clone(),
        }
    }
}

impl ServiceStatus {
    /// Applies the outcome of a health probe made at time `now` and says
    /// what the monitor concludes from it.
    pub fn record_probe(&mut self, outcome: &ProbeOutcome, now: u64) -> (verdict: ProbeVerdict)
        ensures
            final(self)@ == old(self)@.after_probe(outcome@, now),
            verdict == old(self)@.probe_verdict(outcome@),
            final(self)@.last_health_check == Some(now),
            outcome@.is_success() && (old(self)@.status == ServicePhase::Starting || old(
                self,
            )@.status == ServicePhase::Error) ==> {
                &&& final(self)@.status == ServicePhase::Running
                &&& final(self)@.error_message is None
                &&& final(self)@.restart_count == 0
                &&& final(self)@.restart_backoff == INITIAL_BACKOFF_SECS
            },
            !outcome@.is_success() ==> {
                &&& final(self)@.status == ServicePhase::Error
                &&& final(self)@.restart_count == old(self)@.restart_count
                &&& final(self)@.restart_backoff == old(self)@.restart_backoff
            },
            old(self)@.well_formed() ==> final(self)@.well_formed(),
    {
        self.last_health_check = Some(now);
        if outcome.is_success() {
            if self.status == ServicePhase::Starting || self.status == ServicePhase::Error {
                self.status = ServicePhase::Running;
                self.error_message = None;
                self.restart_count = 0;
                self.restart_backoff = INITIAL_BACKOFF_SECS;
                ProbeVerdict::Recovered
            } else {
                ProbeVerdict::Healthy
            }
        } else {
            let was_running = self.status == ServicePhase::Running;
            self.status = ServicePhase::Error;
            self.error_message = Some(outcome.failure_message());
            ProbeVerdict::Unhealthy { restart_scheduled: was_running }
        }
    }
}

/// Warm-up seconds accounted for after a cycle that began with `elapsed`
/// seconds accounted for.
pub open spec fn elapsed_after_cycle(elapsed: nat) -> nat {
    if elapsed >= STARTUP_DURATION_SECS {
        elapsed
    } else if elapsed + STARTUP_PROBE_INTERVAL_SECS >= STARTUP_DURATION_SECS {
        STARTUP_DURATION_SECS as nat
    } else {
        elapsed + STARTUP_PROBE_INTERVAL_SECS as nat
    }
}

/// The wait before a round of probes when `elapsed` seconds of warm-up are
/// accounted for.
pub open spec fn interval_at(elapsed: nat) -> u64 {
    if elapsed < STARTUP_DURATION_SECS {
        STARTUP_PROBE_INTERVAL_SECS
    } else {
        STEADY_PROBE_INTERVAL_SECS
    }
}

/// Warm-up seconds accounted for after `cycles` cycles of a new schedule.
pub open spec fn elapsed_after_cycles(cycles: nat) -> nat
    decreases cycles,
{
    if cycles == 0 {
        0
    } else {
        elapsed_after_cycle(elapsed_after_cycles((cycles - 1) as nat))
    }
}

/// The cadence of the health monitor: short waits during the warm-up that
/// follows the launch, longer waits afterwards.
#[derive(Debug)]
pub struct MonitorSchedule {
    startup_phase: bool,
    startup_elapsed: u64,
}

impl MonitorSchedule {
    #[verifier::type_invariant]
    spec fn consistent(self) -> bool {
        &&& self.startup_elapsed <= STARTUP_DURATION_SECS
        &&& self.startup_phase == (self.startup_elapsed < STARTUP_DURATION_SECS)
    }

    /// Seconds of warm-up accounted for so far, at most the length of the
    /// warm-up.
    pub closed spec fn elapsed(&self) -> nat {
        self.startup_elapsed as nat
    }

    /// The schedule of a monitor that has not waited yet.
    pub fn new() -> (schedule: MonitorSchedule)
        ensures
            schedule.elapsed() == 0,
    {
        MonitorSchedule { startup_phase: true, startup_elapsed: 0 }
    }

    /// Whether the monitor is still in its warm-up.
    pub fn in_startup_phase(&self) -> (warming_up: bool)
        ensures
            warming_up == (self.elapsed() < STARTUP_DURATION_SECS),
    {
        proof {
            use_type_invariant(self);
        }
        self.startup_phase
    }

    /// Seconds to wait before the next round of probes.
    pub fn probe_interval(&self) -> (secs: u64)
        ensures
            secs == interval_at(self.elapsed()),
    {
        proof {
            use_type_invariant(self);
        }
        if self.startup_phase {
            STARTUP_PROBE_INTERVAL_SECS
        } else {
            STEADY_PROBE_INTERVAL_SECS
        }
    }

    /// Begins a cycle: returns the seconds to wait before this round of
    /// probes and accounts for them.
    pub fn next_cycle(&mut self) -> (secs: u64)
        ensures
            secs == interval_at(old(self).elapsed()),
            final(self).elapsed() == elapsed_after_cycle(old(self).elapsed()),
    {
        proof {
            use_type_invariant(&*self);
        }
        let secs: u64 = self.probe_interval();
        if self.startup_phase {
            if self.startup_elapsed >= STARTUP_DURATION_SECS - STARTUP_PROBE_INTERVAL_SECS {
                *self = MonitorSchedule {
                    startup_phase: false,
                    startup_elapsed: STARTUP_DURATION_SECS,
                };
            } else {
                self.startup_elapsed = self.startup_elapsed + STARTUP_PROBE_INTERVAL_SECS;
            }
        }
        secs
    }
}

/// A new monitor waits five seconds before each of its first twelve rounds
/// of probes, which fill the warm-up of sixty seconds, and thirty seconds
/// before every later round.
pub proof fn lemma_warm_up_cadence(cycles: nat)
    ensures
        cycles <= 12 ==> elapsed_after_cycles(cycles) == 5 * cycles,
        cycles >= 12 ==> elapsed_after_cycles(cycles) == STARTUP_DURATION_SECS,
        interval_at(elapsed_after_cycles(cycles)) == if cycles < 12 {
            STARTUP_PROBE_INTERVAL_SECS
        } else {
            STEADY_PROBE_INTERVAL_SECS
        },
    decreases cycles,
{
    if cycles > 0 {
        lemma_warm_up_cadence((cycles - 1) as nat);
    }
}

} // verus!
