//! One lifecycle operation as an explicit state machine. The surrounding
//! application owns every side effect — writing the script, requesting
//! elevation, sleeping, reading the log, querying the service manager —
//! and reports each observation here; the session decides every
//! transition and the final result.
//!
//! Phases: script generation, script write, elevation, bounded polling,
//! verification against a fresh status, done. Polling always hands over
//! to verification — on a marker, an `ERROR:` note, or a spent budget
//! alike — and the re-queried state alone decides the result. Elevation
//! is requested only for an operation that can possibly succeed: an
//! install with no candidate binary fails before a script or log even
//! exists.

use vstd::prelude::*;

use crate::outcome::{
    spec_failure_details, spec_log_shows_error, spec_post_ok, verify_outcome, OperationError,
};
use crate::poll::{
    sample_view, spec_sample_terminal, CompletionPoller, PollDecision, POLL_ATTEMPTS,
};
use crate::script::{build_plan, plan_matches, render_script, LifecycleOperation, ScriptPlan};
use crate::status::ServiceStatus;

verus! {

/// The escalation primitive reports a numeric result; values above this
/// threshold mean the launch itself succeeded.
pub const LAUNCH_SUCCESS_THRESHOLD: usize = 32;

/// A single-shot request to the OS escalation primitive: run the command
/// interpreter on the script, elevated and hidden from view. No handle to
/// the spawned process is retained — the log is the only channel back.
#[derive(Debug)]
pub struct ElevationRequest {
    pub operation: String,
    pub executable: String,
    pub parameters: String,
    pub hidden: bool,
}

/// Where a session stands.
#[derive(Clone, Copy, Debug, PartialEq, Eq, Structural)]
pub enum Phase {
    /// The script text has yet to be produced.
    Scripting,
    /// The script text is out; the application is writing the file.
    Writing,
    /// The script is on disk; elevation has yet to be requested.
    Elevating,
    /// The elevated child is detached; the log is being sampled.
    Polling,
    /// Sampling is over; the fresh status query decides the outcome.
    Verifying,
    /// A result has been returned.
    Complete,
}

/// The per-operation session: the operation, its generated plan, the
/// bounded poller, and the current phase.
#[derive(Debug)]
pub struct LifecycleSession {
    pub op: LifecycleOperation,
    pub plan: ScriptPlan,
    pub poller: CompletionPoller,
    pub phase: Phase,
}

impl LifecycleSession {
    /// The session invariant: the poller watches for the plan's own
    /// success marker, and the sample budget is whole until polling
    /// begins and never spent while polling continues.
    pub open spec fn wf(self) -> bool {
        &&& self.poller.marker@ == self.plan.marker@
        &&& (self.phase == Phase::Scripting || self.phase == Phase::Writing || self.phase
            == Phase::Elevating) ==> self.poller.remaining == POLL_ATTEMPTS
        &&& self.phase == Phase::Polling ==> self.poller.remaining >= 1
    }

    /// Opens a session for one operation. On a platform without the
    /// privileged-service primitive every mutating operation fails here,
    /// with the fixed message and before any side effect is asked for.
    /// `install_exe` is the resolved service binary path and is read only
    /// by the install plan.
    pub fn begin(op: LifecycleOperation, platform_supported: bool, install_exe: &str) -> (r:
        Result<LifecycleSession, OperationError>)
        ensures
            r is Ok <==> platform_supported,
            r matches Err(e) ==> e is PlatformUnsupported,
            r matches Ok(s) ==> {
                &&& s.op == op
                &&& plan_matches(s.plan, op, install_exe@)
                &&& s.phase == Phase::Scripting
                &&& s.wf()
            },
    {
        if !platform_supported {
            return Err(OperationError::PlatformUnsupported);
        }
        let plan = build_plan(op, install_exe);
        let poller = CompletionPoller::new(plan.marker.clone());
        Ok(LifecycleSession { op, plan, poller, phase: Phase::Scripting })
    }

    /// Produces the script text to write, rendered against the log path
    /// the application chose. The application must clear any stale log
    /// before launching; the script's own first line truncates it again.
    pub fn script_request(&mut self, log_path: &str) -> (text: String)
        requires
            old(self).phase == Phase::Scripting,
            old(self).wf(),
        ensures
            final(self).op == old(self).op,
            final(self).plan == old(self).plan,
            final(self).poller == old(self).poller,
            final(self).phase == Phase::Writing,
            final(self).wf(),
            text@ == crate::script::spec_render(old(self).plan, log_path@),
    {
        let text = render_script(&self.plan, log_path);
        self.phase = Phase::Writing;
        text
    }

    /// Takes the result of writing the script file. A failed write ends
    /// the session with the write failure; otherwise elevation is next.
    pub fn on_script_written(&mut self, io_error: Option<&str>) -> (r: Result<
        (),
        OperationError,
    >)
        requires
            old(self).phase == Phase::Writing,
            old(self).wf(),
        ensures
            final(self).op == old(self).op,
            final(self).plan == old(self).plan,
            final(self).poller == old(self).poller,
            final(self).wf(),
            r is Ok <==> io_error is None,
            r is Ok ==> final(self).phase == Phase::Elevating,
            r is Err ==> final(self).phase == Phase::Complete,
            r matches Err(e) ==> e matches OperationError::ScriptWriteFailed {
                script_name,
                detail,
            } && script_name@ == old(self).plan.script_name@ && (io_error matches Some(d)
                && detail@ == d@),
    {
        match io_error {
            None => {
                self.phase = Phase::Elevating;
                Ok(())
            },
            Some(d) => {
                self.phase = Phase::Complete;
                Err(
                    OperationError::ScriptWriteFailed {
                        script_name: self.plan.script_name.clone(),
                        detail: String::from_str(d),
                    },
                )
            },
        }
    }

    /// The request to hand the OS escalation primitive: run the command
    /// interpreter on the written script, elevated, window hidden.
    pub fn elevation_request(&self, script_path: &str) -> (r: ElevationRequest)
        requires
            self.phase == Phase::Elevating,
        ensures
            r.operation@ == "runas"@,
            r.executable@ == "cmd.exe"@,
            r.parameters@ == "/c \""@ + script_path@ + "\""@,
            r.hidden,
    {
        let parameters = String::from_str("/c \"").concat(script_path).concat("\"");
        assert(parameters@ =~= "/c \""@ + script_path@ + "\""@);
        ElevationRequest {
            operation: String::from_str("runas"),
            executable: String::from_str("cmd.exe"),
            parameters,
            hidden: true,
        }
    }

    /// Takes the numeric result of the escalation primitive. A value
    /// above the threshold confirms only that the launch succeeded —
    /// nothing about the script's own outcome; anything else means the
    /// user declined the consent prompt or the primitive errored, and the
    /// session ends.
    pub fn on_launched(&mut self, code: usize) -> (r: Result<(), OperationError>)
        requires
            old(self).phase == Phase::Elevating,
            old(self).wf(),
        ensures
            final(self).op == old(self).op,
            final(self).plan == old(self).plan,
            final(self).poller == old(self).poller,
            final(self).wf(),
            r is Ok <==> code > LAUNCH_SUCCESS_THRESHOLD,
            r is Ok ==> final(self).phase == Phase::Polling,
            r is Err ==> final(self).phase == Phase::Complete,
            r matches Err(e) ==> e matches OperationError::ElevationDeclined { code: c } && c
                == code,
    {
        if code > LAUNCH_SUCCESS_THRESHOLD {
            self.phase = Phase::Polling;
            Ok(())
        } else {
            self.phase = Phase::Complete;
            Err(OperationError::ElevationDeclined { code })
        }
    }

    /// Takes one log sample, after the application's fixed-interval
    /// sleep. The wait stops the moment the sample shows the success
    /// marker or an `ERROR:` note, or when the sample budget is spent —
    /// a timeout is ambiguous, not a failure, and verification still
    /// follows.
    pub fn on_log_sample(&mut self, sample: Option<&String>) -> (d: PollDecision)
        requires
            old(self).phase == Phase::Polling,
            old(self).wf(),
        ensures
            final(self).op == old(self).op,
            final(self).plan == old(self).plan,
            final(self).wf(),
            final(self).poller.remaining == old(self).poller.remaining - 1,
            d == PollDecision::Stop <==> (spec_sample_terminal(
                sample_view(sample),
                old(self).plan.marker@,
            ) || final(self).poller.remaining == 0),
            d == PollDecision::Stop ==> final(self).phase == Phase::Verifying,
            d == PollDecision::Wait ==> final(self).phase == Phase::Polling,
    {
        let d = self.poller.observe(sample);
        if d == PollDecision::Stop {
            self.phase = Phase::Verifying;
        }
        d
    }

    /// Takes the independently queried status — the sole source of truth
    /// — together with the log as read back, and closes the session.
    /// Success exactly when the status shows the operation's desired
    /// end-state, whatever the log says. On failure, a logged `ERROR:`
    /// note selects the step failure, a clean or missing log the
    /// verification mismatch; either way the log contents — or the fixed
    /// note when no log was ever created — are embedded.
    pub fn on_status(
        &mut self,
        status: &ServiceStatus,
        log: Option<&String>,
        log_path: &str,
    ) -> (r: Result<(), OperationError>)
        requires
            old(self).phase == Phase::Verifying,
            old(self).wf(),
        ensures
            final(self).op == old(self).op,
            final(self).plan == old(self).plan,
            final(self).poller == old(self).poller,
            final(self).phase == Phase::Complete,
            final(self).wf(),
            r is Ok <==> spec_post_ok(old(self).op, *status),
            spec_log_shows_error(sample_view(log)) ==> (r matches Err(e) ==> e
                matches OperationError::StepFailed { log_path: lp, details } && lp@ == log_path@
                && details@ == spec_failure_details(sample_view(log))),
            !spec_log_shows_error(sample_view(log)) ==> (r matches Err(e) ==> e
                matches OperationError::VerificationMismatch { op: eop, details } && eop == old(
                self,
            ).op && details@ == spec_failure_details(sample_view(log))),
    {
        let r = verify_outcome(self.op, status, log, log_path);
        self.phase = Phase::Complete;
        r
    }

    /// The fixed file name of the script this session writes.
    pub fn script_name(&self) -> (n: &String)
        ensures
            n@ == self.plan.script_name@,
    {
        &self.plan.script_name
    }

    /// The fixed file name of the log this session watches.
    pub fn log_name(&self) -> (n: &String)
        ensures
            n@ == self.plan.log_name@,
    {
        &self.plan.log_name
    }
}

/// The ordered file names an install searches for the service binary,
/// relative to the application's binaries directory.
pub fn candidate_binary_names() -> (v: Vec<String>)
    ensures
        v@.len() == 2,
        v@[0]@ == "zerobyte-service-x86_64-pc-windows-msvc.exe"@,
        v@[1]@ == "zerobyte-service.exe"@,
{
    let mut v: Vec<String> = Vec::new();
    v.push(String::from_str("zerobyte-service-x86_64-pc-windows-msvc.exe"));
    v.push(String::from_str("zerobyte-service.exe"));
    v
}

/// Picks the first candidate binary that exists, given the candidate
/// paths and, for each, whether a file is present there. When none is,
/// the install fails fast — before any elevation or script — with a
/// message naming the searched directory.
pub fn resolve_install_binary(dir: &str, paths: &Vec<String>, present: &Vec<bool>) -> (r: Result<
    String,
    OperationError,
>)
    requires
        paths@.len() == present@.len(),
    ensures
        r is Ok <==> exists|i: int| 0 <= i < present@.len() && present@[i],
        r matches Ok(p) ==> exists|i: int|
            {
                &&& 0 <= i < present@.len()
                &&& present@[i]
                &&& (forall|j: int| 0 <= j < i ==> !present@[j])
                &&& p == paths@[i]
            },
        r matches Err(e) ==> e matches OperationError::BinaryNotFound { dir: d } && d@ == dir@,
{
    let n = paths.len();
    let mut i: usize = 0;
    while i < n
        invariant
            n == paths@.len(),
            n == present@.len(),
            i <= n,
            forall|j: int| 0 <= j < i ==> !present@[j],
        decreases n - i,
    {
        if present[i] {
            return Ok(paths[i].clone());
        }
        i += 1;
    }
    Err(OperationError::BinaryNotFound { dir: String::from_str(dir) })
}

} // verus!
