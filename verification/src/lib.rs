//! Verified core of a privileged service-lifecycle orchestrator.
//!
//! The library models the decision logic of installing, starting, stopping
//! and uninstalling an OS background service from an unprivileged caller:
//! generating the elevated command script, interpreting the escalation
//! primitive's result, polling a log side channel for completion markers,
//! and verifying the outcome against an independent status query. All I/O
//! (file writes, process launches, sleeps, the status query itself) is left
//! to the surrounding application, which drives the state machine defined
//! here with the values it observed.

pub mod backend;
pub mod outcome;
pub mod poll;
pub mod script;
pub mod session;
pub mod status;
pub mod text;
