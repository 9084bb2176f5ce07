use hearthlink_supervisor::error::SupervisorError;
use hearthlink_supervisor::role::ServiceRole;

#[test]
fn message_of_an_unavailable_port() {
    let error = SupervisorError::PortUnavailable {
        port: 8888,
        name: ServiceRole::Alden,
        reason: String::from("Address already in use (os error 98)"),
    };
    assert_eq!(
        error.message(),
        "Port 8888 unavailable for alden service: Address already in use (os error 98)"
    );
}

#[test]
fn message_of_a_missing_runtime() {
    assert_eq!(
        SupervisorError::RuntimeNotFound.message(),
        "Python 3.x not found. Please ensure Python 3.x is installed and in PATH."
    );
}

#[test]
fn message_of_a_missing_script() {
    let error = SupervisorError::ScriptNotFound { path: String::from("/opt/app/src/api/core_api.py") };
    assert_eq!(error.message(), "Python script not found: /opt/app/src/api/core_api.py");
}

#[test]
fn message_of_a_failed_spawn() {
    let error = SupervisorError::SpawnFailed {
        name: ServiceRole::Synapse,
        reason: String::from("Permission denied (os error 13)"),
    };
    assert_eq!(error.message(), "Failed to start synapse service: Permission denied (os error 13)");
}

#[test]
fn message_of_an_unknown_service() {
    let error = SupervisorError::UnknownService { requested: String::from("sentry") };
    assert_eq!(error.message(), "Unknown service: sentry");
}

#[test]
fn message_of_exhausted_restarts() {
    assert_eq!(SupervisorError::MaxRestartsExceeded.message(), "Max restart attempts exceeded");
}

#[test]
fn duplicate_of_each_error() {
    let errors = vec![
        SupervisorError::PortUnavailable { port: 8010, name: ServiceRole::Core, reason: String::from("in use") },
        SupervisorError::RuntimeNotFound,
        SupervisorError::ScriptNotFound { path: String::from("/x/y.py") },
        SupervisorError::SpawnFailed { name: ServiceRole::Vault, reason: String::from("no memory") },
        SupervisorError::UnknownService { requested: String::from("") },
        SupervisorError::MaxRestartsExceeded,
    ];
    for error in &errors {
        assert_eq!(&error.duplicate(), error);
    }
}
