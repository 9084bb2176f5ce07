//! Failures that the supervisor reports to its caller.

use crate::role::ServiceRole;
use crate::text::{append_decimal, decimal};
use vstd::prelude::*;
use vstd::string::*;

verus! {

/// A failure of a startup or restart request.
#[derive(Debug, PartialEq, Eq)]
pub enum SupervisorError {
    /// The port assigned to a worker could not be bound before the launch.
    PortUnavailable { port: u16, name: ServiceRole, reason: String },
    /// None of the candidate runtimes is a usable Python 3.
    RuntimeNotFound,
    /// The entry point of a worker is missing; `path` is where it was sought.
    ScriptNotFound { path: String },
    /// The operating system refused to create the worker's process.
    SpawnFailed { name: ServiceRole, reason: String },
    /// No worker goes by this name.
    UnknownService { requested: String },
    /// The worker used up its restarts.
    MaxRestartsExceeded,
}

/// What a [`SupervisorError`] holds, with texts as character sequences.
pub enum SupervisorErrorView {
    PortUnavailable { port: u16, name: ServiceRole, reason: Seq<char> },
    RuntimeNotFound,
    ScriptNotFound { path: Seq<char> },
    SpawnFailed { name: ServiceRole, reason: Seq<char> },
    UnknownService { requested: Seq<char> },
    MaxRestartsExceeded,
}

impl View for SupervisorError {
    type V = SupervisorErrorView;

    open spec fn view(&self) -> SupervisorErrorView {
        match self {
            SupervisorError::PortUnavailable { port, name, reason } => SupervisorErrorView::PortUnavailable {
                port: *port,
                name: *name,
                reason: reason@,
            },
            SupervisorError::RuntimeNotFound => SupervisorErrorView::RuntimeNotFound,
            SupervisorError::ScriptNotFound { path } => SupervisorErrorView::ScriptNotFound { path: path@ },
            SupervisorError::SpawnFailed { name, reason } => SupervisorErrorView::SpawnFailed {
                name: *name,
                reason: reason@,
            },
            SupervisorError::UnknownService { requested } => SupervisorErrorView::UnknownService {
                requested: requested@,
            },
            SupervisorError::MaxRestartsExceeded => SupervisorErrorView::MaxRestartsExceeded,
        }
    }
}

impl SupervisorErrorView {
    /// The sentence that describes the failure to the operator.
    pub open spec fn message(self) -> Seq<char> {
        match self {
            SupervisorErrorView::PortUnavailable { port, name, reason } => "Port "@ + decimal(port as nat)
                + " unavailable for "@ + name.name_spec() + " service: "@ + reason,
            SupervisorErrorView::RuntimeNotFound => {
                "Python 3.x not found. Please ensure Python 3.x is installed and in PATH."@
            },
            SupervisorErrorView::ScriptNotFound { path } => "Python script not found: "@ + path,
            SupervisorErrorView::SpawnFailed { name, reason } => "Failed to start "@ + name.name_spec()
                + " service: "@ + reason,
            SupervisorErrorView::UnknownService { requested } => "Unknown service: "@ + requested,
            SupervisorErrorView::MaxRestartsExceeded => "Max restart attempts exceeded"@,
        }
    }
}

impl SupervisorError {
    /// The sentence that describes the failure to the operator.
    pub fn message(&self) -> (message: String)
        ensures
            message@ == self@.message(),
    {
        match self {
            SupervisorError::PortUnavailable { port, name, reason } => {
                let mut message = String::from_str("Port ");
                append_decimal(&mut message, *port as u64);
                message.append(" unavailable for ");
                message.append(name.name());
                message.append(" service: ");
                message.append(reason.as_str());
                message
            },
            SupervisorError::RuntimeNotFound => String::from_str(
                "Python 3.x not found. Please ensure Python 3.x is installed and in PATH.",
            ),
            SupervisorError::ScriptNotFound { path } => {
                let mut message = String::from_str("Python script not found: ");
                message.append(path.as_str());
                message
            },
            SupervisorError::SpawnFailed { name, reason } => {
                let mut message = String::from_str("Failed to start ");
                message.append(name.name());
                message.append(" service: ");
                message.append(reason.as_str());
                message
            },
            SupervisorError::UnknownService { requested } => {
                let mut message = String::from_str("Unknown service: ");
                message.append(requested.as_str());
                message
            },
            SupervisorError::MaxRestartsExceeded => String::from_str("Max restart attempts exceeded"),
        }
    }

    /// An independent copy of the failure.
    pub fn duplicate(&self) -> (copy: SupervisorError)
        ensures
            copy@ == self@,
    {
        match self {
            SupervisorError::PortUnavailable { port, name, reason } => SupervisorError::PortUnavailable {
                port: *port,
                name: *name,
                reason: reason.clone(),
            },
            SupervisorError::RuntimeNotFound => SupervisorError::RuntimeNotFound,
            SupervisorError::ScriptNotFound { path } => SupervisorError::ScriptNotFound { path: path.clone() },
            SupervisorError::SpawnFailed { name, reason } => SupervisorError::SpawnFailed {
                name: *name,
                reason: reason.clone(),
            },
            SupervisorError::UnknownService { requested } => SupervisorError::UnknownService {
                requested: requested.clone(),
            },
            SupervisorError::MaxRestartsExceeded => SupervisorError::MaxRestartsExceeded,
        }
    }
}

} // verus!
