//! The error taxonomy, the human-readable failure messages, and the close
//! of every mutating operation: verifying the outcome against an
//! independent status query. The re-queried state is the sole source of
//! truth — the log is never trusted alone, in either direction: a success
//! marker proves nothing, and an `ERROR:` note only selects the flavor of
//! a failure that the state itself establishes.

use vstd::prelude::*;

use crate::poll::{error_note, sample_view};
use crate::script::LifecycleOperation;
use crate::status::ServiceStatus;
use crate::text::{dec_rep, str_contains, text_contains, u64_string};

verus! {

/// Why an operation failed.
#[derive(Clone, Debug)]
pub enum OperationError {
    /// The platform has no privileged-service primitive.
    PlatformUnsupported,
    /// No candidate service binary exists under the searched directory;
    /// detected before any elevation is requested.
    BinaryNotFound { dir: String },
    /// The script file could not be written.
    ScriptWriteFailed { script_name: String, detail: String },
    /// The escalation primitive refused the launch: the user declined the
    /// consent prompt, or the primitive itself errored.
    ElevationDeclined { code: usize },
    /// The desired end-state was not reached and a checked step inside
    /// the elevated script logged an `ERROR:` note; the log contents are
    /// embedded.
    StepFailed { log_path: String, details: String },
    /// The desired end-state was not reached although the log claimed no
    /// failed step (or was never written); the log contents — or a note
    /// that there were none — are embedded.
    VerificationMismatch { op: LifecycleOperation, details: String },
}

/// The lead-in of a verification-mismatch message, per operation.
pub open spec fn mismatch_prefix(op: LifecycleOperation) -> Seq<char> {
    match op {
        LifecycleOperation::Install => "Service installation failed. Details:\n"@,
        LifecycleOperation::Uninstall => "Service uninstallation failed. Details:\n"@,
        LifecycleOperation::Start => "Failed to start service. Details:\n"@,
        LifecycleOperation::Stop => "Failed to stop service. Details:\n"@,
    }
}

/// The message each failure carries to the caller.
pub open spec fn spec_message(e: OperationError) -> Seq<char> {
    match e {
        OperationError::PlatformUnsupported => "Windows Service is only supported on Windows"@,
        OperationError::BinaryNotFound { dir } => "Service executable not found in: "@ + dir@,
        OperationError::ScriptWriteFailed { script_name, detail } => "Failed to write "@
            + script_name@ + " script: "@ + detail@,
        OperationError::ElevationDeclined { code } => (
        "Failed to execute elevated command. Error code: "@ + dec_rep(code as nat)),
        OperationError::StepFailed { log_path, details } => (
        "Operation failed. Check log file for details: "@ + log_path@ + "\nDetails:\n"@
            + details@),
        OperationError::VerificationMismatch { op, details } => mismatch_prefix(op) + details@,
    }
}

impl OperationError {
    /// Renders the failure as the message handed to the caller.
    pub fn message(&self) -> (m: String)
        ensures
            m@ == spec_message(*self),
    {
        match self {
            OperationError::PlatformUnsupported => {
                String::from_str("Windows Service is only supported on Windows")
            },
            OperationError::BinaryNotFound { dir } => {
                let m = String::from_str("Service executable not found in: ").concat(dir.as_str());
                assert(m@ =~= spec_message(*self));
                m
            },
            OperationError::ScriptWriteFailed { script_name, detail } => {
                let m = String::from_str("Failed to write ").concat(script_name.as_str()).concat(
                    " script: ",
                ).concat(detail.as_str());
                assert(m@ =~= spec_message(*self));
                m
            },
            OperationError::ElevationDeclined { code } => {
                let digits = u64_string(*code as u64);
                let m = String::from_str("Failed to execute elevated command. Error code: ").concat(
                    digits.as_str(),
                );
                assert(m@ =~= spec_message(*self));
                m
            },
            OperationError::StepFailed { log_path, details } => {
                let m = String::from_str("Operation failed. Check log file for details: ").concat(
                    log_path.as_str(),
                ).concat("\nDetails:\n").concat(details.as_str());
                assert(m@ =~= spec_message(*self));
                m
            },
            OperationError::VerificationMismatch { op, details } => {
                let prefix = match op {
                    LifecycleOperation::Install => "Service installation failed. Details:\n",
                    LifecycleOperation::Uninstall => "Service uninstallation failed. Details:\n",
                    LifecycleOperation::Start => "Failed to start service. Details:\n",
                    LifecycleOperation::Stop => "Failed to stop service. Details:\n",
                };
                let m = String::from_str(prefix).concat(details.as_str());
                assert(m@ =~= spec_message(*self));
                m
            },
        }
    }
}

/// The desired end-state of each operation, read from a fresh status:
/// after install the service is installed, after uninstall it is not,
/// after start it runs, after stop it does not.
pub open spec fn spec_post_ok(op: LifecycleOperation, s: ServiceStatus) -> bool {
    match op {
        LifecycleOperation::Install => s.installed,
        LifecycleOperation::Uninstall => !s.installed,
        LifecycleOperation::Start => s.running,
        LifecycleOperation::Stop => !s.running,
    }
}

/// Whether a fresh status shows the operation's desired end-state.
pub fn post_ok(op: LifecycleOperation, s: &ServiceStatus) -> (r: bool)
    ensures
        r == spec_post_ok(op, *s),
{
    match op {
        LifecycleOperation::Install => s.installed,
        LifecycleOperation::Uninstall => !s.installed,
        LifecycleOperation::Start => s.running,
        LifecycleOperation::Stop => !s.running,
    }
}

/// Whether the log that was read back shows a failed step. A missing log
/// shows nothing.
pub open spec fn spec_log_shows_error(log: Option<Seq<char>>) -> bool {
    match log {
        Some(content) => text_contains(content, error_note()),
        None => false,
    }
}

/// Whether the log read back after polling shows a failed step.
pub fn log_shows_error(log: Option<&String>) -> (r: bool)
    ensures
        r == spec_log_shows_error(sample_view(log)),
{
    match log {
        Some(content) => str_contains(content.as_str(), "ERROR:"),
        None => false,
    }
}

/// The diagnostic text a failure embeds: the log as read back, or a fixed
/// note when no log was ever created.
pub open spec fn spec_failure_details(log: Option<Seq<char>>) -> Seq<char> {
    match log {
        Some(content) => content,
        None => "No log file found"@,
    }
}

/// The operation as a whole succeeds exactly when the independently
/// queried state shows the desired end-state. The log — success marker,
/// `ERROR:` note, or nothing at all — has no say in the verdict; it only
/// flavors a failure.
pub open spec fn spec_op_succeeds(
    op: LifecycleOperation,
    log: Option<Seq<char>>,
    status: ServiceStatus,
) -> bool {
    spec_post_ok(op, status)
}

/// Verifies the outcome against the independently queried state: the sole
/// source of truth. On failure, a logged `ERROR:` note selects the step
/// failure, a clean or missing log the verification mismatch; either way
/// the log contents (or the note that there were none) are embedded.
pub fn verify_outcome(
    op: LifecycleOperation,
    status: &ServiceStatus,
    log: Option<&String>,
    log_path: &str,
) -> (r: Result<(), OperationError>)
    ensures
        r is Ok <==> spec_post_ok(op, *status),
        spec_log_shows_error(sample_view(log)) ==> (r matches Err(e) ==> e
            matches OperationError::StepFailed { log_path: lp, details } && lp@ == log_path@
            && details@ == spec_failure_details(sample_view(log))),
        !spec_log_shows_error(sample_view(log)) ==> (r matches Err(e) ==> e
            matches OperationError::VerificationMismatch { op: eop, details } && eop == op
            && details@ == spec_failure_details(sample_view(log))),
{
    if post_ok(op, status) {
        Ok(())
    } else {
        let details = match log {
            Some(content) => content.clone(),
            None => String::from_str("No log file found"),
        };
        if log_shows_error(log) {
            Err(
                OperationError::StepFailed {
                    log_path: String::from_str(log_path),
                    details,
                },
            )
        } else {
            Err(OperationError::VerificationMismatch { op, details })
        }
    }
}

/// Idempotence: when the independent status query already shows the
/// operation's desired end-state, the operation reports success whatever
/// the log says — a step that balked at redoing finished work (and logged
/// an `ERROR:` note) does not turn a converged operation into a failure.
pub proof fn lemma_idempotent_success(
    op: LifecycleOperation,
    log: Option<Seq<char>>,
    status: ServiceStatus,
)
    requires
        spec_post_ok(op, status),
    ensures
        spec_op_succeeds(op, log, status),
{
}

/// The log alone is insufficient proof: however loudly the log claims
/// success — even if it contains the operation's success marker — an
/// operation whose desired end-state the re-queried status does not show
/// has failed.
pub proof fn lemma_log_alone_proves_nothing(
    op: LifecycleOperation,
    content: Seq<char>,
    marker: Seq<char>,
    status: ServiceStatus,
)
    requires
        text_contains(content, marker),
        !spec_post_ok(op, status),
    ensures
        !spec_op_succeeds(op, Some(content), status),
{
}

/// A declined elevation leaves no log at all: the missing log shows no
/// error, so the failure is a verification mismatch carrying the fixed
/// "No log file found" note whenever the desired end-state is not
/// reached.
pub proof fn lemma_missing_log_fails_verification(op: LifecycleOperation, status: ServiceStatus)
    requires
        !spec_post_ok(op, status),
    ensures
        !spec_log_shows_error(None),
        !spec_op_succeeds(op, None, status),
        spec_failure_details(None) == "No log file found"@,
{
}

} // verus!
