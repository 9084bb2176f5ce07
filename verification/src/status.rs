//! The observable state of one worker.

use crate::backoff::{backoff_after, INITIAL_BACKOFF_SECS, MAX_RESTART_ATTEMPTS};
use crate::role::ServiceRole;
use crate::text::{append_decimal, copy_text, decimal, text_of};
use vstd::prelude::*;
use vstd::string::*;

verus! {

/// Lifecycle phase of a worker.
#[derive(Clone, Copy, Debug, PartialEq, Eq, Structural)]
pub enum ServicePhase {
    Starting,
    Running,
    Error,
    Stopped,
}

impl ServicePhase {
    /// The lower-case label under which the phase is reported.
    pub open spec fn label_spec(self) -> Seq<char> {
        match self {
            ServicePhase::Starting => "starting"@,
            ServicePhase::Running => "running"@,
            ServicePhase::Error => "error"@,
            ServicePhase::Stopped => "stopped"@,
        }
    }

    /// The lower-case label under which the phase is reported.
    pub fn as_str(&self) -> (label: &'static str)
        ensures
            label@ == self.label_spec(),
    {
        match self {
            ServicePhase::Starting => "starting",
            ServicePhase::Running => "running",
            ServicePhase::Error => "error",
            ServicePhase::Stopped => "stopped",
        }
    }
}

/// The URL of the health endpoint of a worker that listens on `port`.
pub open spec fn health_url_spec(port: u16) -> Seq<char> {
    "http://127.0.0.1:"@ + decimal(port as nat) + "/health"@
}

/// The URL of the health endpoint of a worker that listens on `port`.
pub fn health_url(port: u16) -> (url: String)
    ensures
        url@ == health_url_spec(port),
{
    let mut url = String::from_str("http://127.0.0.1:");
    append_decimal(&mut url, port as u64);
    url.append("/health");
    url
}

/// State record of one worker, as the status table holds it and as health
/// queries report it.
#[derive(Debug, PartialEq, Eq)]
pub struct ServiceStatus {
    pub name: ServiceRole,
    pub status: ServicePhase,
    pub port: u16,
    pub pid: Option<u32>,
    pub started_at: Option<u64>,
    pub health_check_url: String,
    pub last_health_check: Option<u64>,
    pub error_message: Option<String>,
    pub restart_count: u32,
    pub last_restart: Option<u64>,
    /// Seconds to wait before the next restart.
    pub restart_backoff: u64,
}

/// What a [`ServiceStatus`] holds, with texts as character sequences.
pub struct ServiceStatusView {
    pub name: ServiceRole,
    pub status: ServicePhase,
    pub port: u16,
    pub pid: Option<u32>,
    pub started_at: Option<u64>,
    pub health_check_url: Seq<char>,
    pub last_health_check: Option<u64>,
    pub error_message: Option<Seq<char>>,
    pub restart_count: u32,
    pub last_restart: Option<u64>,
    pub restart_backoff: u64,
}

impl View for ServiceStatus {
    type V = ServiceStatusView;

    open spec fn view(&self) -> ServiceStatusView {
        ServiceStatusView {
            name: self.name,
            status: self.status,
            port: self.port,
            pid: self.pid,
            started_at: self.started_at,
            health_check_url: self.health_check_url@,
            last_health_check: self.last_health_check,
            error_message: text_of(self.error_message),
            restart_count: self.restart_count,
            last_restart: self.last_restart,
            restart_backoff: self.restart_backoff,
        }
    }
}

impl ServiceStatusView {
    /// What every record in the status table satisfies: a stopped worker has
    /// no process, the restart counter stays within the ceiling, the backoff
    /// is the one that belongs to the counter, and the health URL points at
    /// the worker's port.
    pub open spec fn well_formed(self) -> bool {
        &&& self.status == ServicePhase::Stopped ==> self.pid is None
        &&& self.restart_count <= MAX_RESTART_ATTEMPTS
        &&& self.restart_backoff == backoff_after(self.restart_count as nat)
        &&& self.health_check_url == health_url_spec(self.port)
    }

    /// The record of a worker that was just spawned for the first time.
    pub open spec fn launched(name: ServiceRole, port: u16, pid: u32, now: u64) -> ServiceStatusView {
        ServiceStatusView {
            name,
            status: ServicePhase::Starting,
            port,
            pid: Some(pid),
            started_at: Some(now),
            health_check_url: health_url_spec(port),
            last_health_check: None,
            error_message: None,
            restart_count: 0,
            last_restart: None,
            restart_backoff: INITIAL_BACKOFF_SECS,
        }
    }

    /// The record after the worker was shut down.
    pub open spec fn stopped(self) -> ServiceStatusView {
        ServiceStatusView { status: ServicePhase::Stopped, pid: None, ..self }
    }
}

impl ServiceStatus {
    /// The record of a worker that was just spawned for the first time as
    /// process `pid` at time `now`.
    pub fn launched(name: ServiceRole, port: u16, pid: u32, now: u64) -> (status: ServiceStatus)
        ensures
            status@ == ServiceStatusView::launched(name, port, pid, now),
            status@.well_formed(),
    {
        ServiceStatus {
            name,
            status: ServicePhase::Starting,
            port,
            pid: Some(pid),
            started_at: Some(now),
            health_check_url: health_url(port),
            last_health_check: None,
            error_message: None,
            restart_count: 0,
            last_restart: None,
            restart_backoff: INITIAL_BACKOFF_SECS,
        }
    }

    /// An independent copy of the record.
    pub fn duplicate(&self) -> (copy: ServiceStatus)
        ensures
            copy@ == self@,
    {
        ServiceStatus {
            name: self.name,
            status: self.status,
            port: self.port,
            pid: self.pid,
            started_at: self.started_at,
            health_check_url: self.health_check_url.clone(),
            last_health_check: self.last_health_check,
            error_message: copy_text(&self.error_message),
            restart_count: self.restart_count,
            last_restart: self.last_restart,
            restart_backoff: self.restart_backoff,
        }
    }

    /// Whether the worker passed its last health probe.
    pub fn is_running(&self) -> (running: bool)
        ensures
            running == (self@.status == ServicePhase::Running),
    {
        self.status == ServicePhase::Running
    }

    /// Records that the worker was shut down: the phase becomes `Stopped`
    /// and the process identifier is cleared; counters and history stay.
    pub fn mark_stopped(&mut self)
        ensures
            final(self)@ == old(self)@.stopped(),
            old(self)@.well_formed() ==> final(self)@.well_formed(),
    {
        self.status = ServicePhase::Stopped;
        self.pid = None;
    }
}

} // verus!
