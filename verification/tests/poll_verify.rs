use service_lifecycle::outcome::{log_shows_error, post_ok, verify_outcome, OperationError};
use service_lifecycle::poll::{sample_terminal, CompletionPoller, PollDecision, POLL_ATTEMPTS};
use service_lifecycle::script::LifecycleOperation;
use service_lifecycle::status::{ServiceStatus, StartType};

fn status(installed: bool, running: bool) -> ServiceStatus {
    let start_type = if installed { Some(StartType::Automatic) } else { None };
    ServiceStatus { installed, running, start_type }
}

#[test]
fn sample_with_marker_is_terminal() {
    assert!(sample_terminal("...\nService stopped\n", "Service stopped"));
}

#[test]
fn sample_with_error_note_is_terminal() {
    assert!(sample_terminal("ERROR: Failed to stop service\n", "Service stopped"));
}

#[test]
fn quiet_sample_is_not_terminal() {
    assert!(!sample_terminal("Stopping service...\n", "Service stopped"));
}

#[test]
fn poller_stops_on_marker() {
    let mut p = CompletionPoller::new("Service stopped".to_string());
    let quiet = "Stopping service...\n".to_string();
    assert_eq!(p.observe(Some(&quiet)), PollDecision::Wait);
    let done = "Stopping service...\nService stopped\n".to_string();
    assert_eq!(p.observe(Some(&done)), PollDecision::Stop);
}

#[test]
fn poller_stops_on_error_note() {
    let mut p = CompletionPoller::new("Service started".to_string());
    let failed = "Starting service...\nERROR: Failed to start service\n".to_string();
    assert_eq!(p.observe(Some(&failed)), PollDecision::Stop);
}

#[test]
fn poller_exhausts_bound_when_log_never_appears() {
    assert_eq!(POLL_ATTEMPTS, 10);
    let mut p = CompletionPoller::new("Installation complete".to_string());
    for _ in 0..POLL_ATTEMPTS - 1 {
        assert_eq!(p.observe(None), PollDecision::Wait);
    }
    assert_eq!(p.observe(None), PollDecision::Stop);
    assert_eq!(p.remaining, 0);
}

#[test]
fn error_note_detection_in_read_back_log() {
    assert!(!log_shows_error(None));
    let quiet = "Stopping service...\nService stopped\n".to_string();
    assert!(!log_shows_error(Some(&quiet)));
    let failed = "Stopping service...\nERROR: Failed to stop service\n".to_string();
    assert!(log_shows_error(Some(&failed)));
}

#[test]
fn logged_error_with_unmet_state_is_a_step_failure_with_log_embedded() {
    let failed = "Stopping service...\nERROR: Failed to stop service\n".to_string();
    let r = verify_outcome(
        LifecycleOperation::Stop,
        &status(true, true),
        Some(&failed),
        "C:\\Temp\\zerobyte_service_stop.log",
    );
    let e = r.unwrap_err();
    assert!(matches!(e, OperationError::StepFailed { .. }));
    assert_eq!(
        e.message(),
        "Operation failed. Check log file for details: C:\\Temp\\zerobyte_service_stop.log\nDetails:\nStopping service...\nERROR: Failed to stop service\n"
    );
}

#[test]
fn logged_error_with_met_state_still_succeeds() {
    // Stopping an already stopped service: the stop command balks and
    // logs an ERROR: note, but the re-queried state shows the desired
    // end-state — the sole source of truth says success.
    let failed = "Stopping service...\nERROR: Failed to stop service\n".to_string();
    let r = verify_outcome(
        LifecycleOperation::Stop,
        &status(true, false),
        Some(&failed),
        "C:\\Temp\\zerobyte_service_stop.log",
    );
    assert!(r.is_ok());
}

#[test]
fn post_conditions_per_operation() {
    assert!(post_ok(LifecycleOperation::Install, &status(true, false)));
    assert!(!post_ok(LifecycleOperation::Install, &status(false, false)));
    assert!(post_ok(LifecycleOperation::Uninstall, &status(false, false)));
    assert!(!post_ok(LifecycleOperation::Uninstall, &status(true, false)));
    assert!(post_ok(LifecycleOperation::Start, &status(true, true)));
    assert!(!post_ok(LifecycleOperation::Start, &status(true, false)));
    assert!(post_ok(LifecycleOperation::Stop, &status(true, false)));
    assert!(!post_ok(LifecycleOperation::Stop, &status(true, true)));
}

#[test]
fn verification_already_converged_is_success() {
    let quiet = "Stopping service...\nService stopped\n".to_string();
    let path = "C:\\Temp\\x.log";
    assert!(
        verify_outcome(LifecycleOperation::Stop, &status(true, false), Some(&quiet), path).is_ok()
    );
    assert!(verify_outcome(LifecycleOperation::Uninstall, &status(false, false), None, path).is_ok());
}

#[test]
fn log_success_marker_alone_does_not_prove_success() {
    // The log claims the install completed, but the fresh status says the
    // service is not installed: the operation must report failure.
    let log = "Installing service...\nInstallation complete\n".to_string();
    let r = verify_outcome(
        LifecycleOperation::Install,
        &status(false, false),
        Some(&log),
        "C:\\Temp\\x.log",
    );
    let e = r.unwrap_err();
    assert!(matches!(e, OperationError::VerificationMismatch { .. }));
    assert_eq!(
        e.message(),
        "Service installation failed. Details:\nInstalling service...\nInstallation complete\n"
    );
}

#[test]
fn missing_log_failure_names_missing_log() {
    let r = verify_outcome(LifecycleOperation::Start, &status(true, false), None, "C:\\Temp\\x.log");
    let e = r.unwrap_err();
    assert_eq!(e.message(), "Failed to start service. Details:\nNo log file found");
}

#[test]
fn mismatch_messages_per_operation() {
    let log = "x".to_string();
    let path = "C:\\Temp\\x.log";
    let e = verify_outcome(LifecycleOperation::Uninstall, &status(true, false), Some(&log), path)
        .unwrap_err();
    assert_eq!(e.message(), "Service uninstallation failed. Details:\nx");
    let e = verify_outcome(LifecycleOperation::Stop, &status(true, true), Some(&log), path)
        .unwrap_err();
    assert_eq!(e.message(), "Failed to stop service. Details:\nx");
}

#[test]
fn error_messages_exact() {
    let e = OperationError::PlatformUnsupported;
    assert_eq!(e.message(), "Windows Service is only supported on Windows");
    let e = OperationError::BinaryNotFound { dir: "C:\\App\\binaries".to_string() };
    assert_eq!(e.message(), "Service executable not found in: C:\\App\\binaries");
    let e = OperationError::ScriptWriteFailed {
        script_name: "zerobyte_stop_service.bat".to_string(),
        detail: "access denied".to_string(),
    };
    assert_eq!(
        e.message(),
        "Failed to write zerobyte_stop_service.bat script: access denied"
    );
    let e = OperationError::ElevationDeclined { code: 5 };
    assert_eq!(e.message(), "Failed to execute elevated command. Error code: 5");
    let e = OperationError::StepFailed {
        log_path: "C:\\Temp\\x.log".to_string(),
        details: "ERROR: y".to_string(),
    };
    assert_eq!(
        e.message(),
        "Operation failed. Check log file for details: C:\\Temp\\x.log\nDetails:\nERROR: y"
    );
}
