//! Decision core of a local process supervisor.
//!
//! The supervisor launches a fixed set of backend workers, watches them
//! through HTTP health probes, restarts failed workers with exponential
//! backoff and stops them in reverse dependency order.  This crate holds the
//! rules of that supervisor as state and transitions on plain values.  The
//! program around it spawns and kills the processes, reads the clock and
//! talks to the network; it asks the library what to do next and reports
//! back what happened.
//!
//! * [`role`], [`profile`] and [`command`] describe the workers: their
//!   names, ports, entry points and command lines.
//! * [`status`], [`probe`] and [`restart`] hold the record of one worker and
//!   what probes and restarts do to it; [`backoff`] holds the policy numbers.
//! * [`manager`] holds the supervisor's state: the status table and the
//!   registry of process handles, which always agree.
//! * [`launch`], [`coordinator`] and [`shutdown`] are the launcher, the
//!   restart coordinator and the shutdown coordinator, each a state machine
//!   that the program drives.
//! * [`health`] computes the snapshot that health queries return, and
//!   [`error`] the failures that startup and restart requests report.

pub mod backoff;
pub mod command;
pub mod coordinator;
pub mod error;
pub mod health;
pub mod http;
pub mod launch;
pub mod manager;
pub mod probe;
pub mod profile;
pub mod restart;
pub mod role;
pub mod shutdown;
pub mod status;
pub mod table;
pub mod text;
