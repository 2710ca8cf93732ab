//! Script generation: each lifecycle operation maps to one plan — a list
//! of steps with their own failure-check policy — which renders to the
//! elevated command script, its log file name and its success marker.

use vstd::prelude::*;

verus! {

/// One of the four privileged operations on the service.
#[derive(Clone, Copy, Debug, PartialEq, Eq, Structural)]
pub enum LifecycleOperation {
    Install,
    Uninstall,
    Start,
    Stop,
}

/// Where a step's output goes.
#[derive(Clone, Copy, Debug, PartialEq, Eq, Structural)]
pub enum StepRedirect {
    /// Both output streams are appended to the log.
    CaptureToLog,
    /// The step's own text is appended to the log (a progress note).
    AppendToLog,
    /// The step writes nowhere (a pause).
    NoRedirect,
}

/// One step of the elevated script: a command line, where its output goes,
/// and — for steps that must not be walked past on failure — the error
/// note the script logs before terminating early.
#[derive(Debug)]
pub struct ScriptStep {
    pub text: String,
    pub redirect: StepRedirect,
    pub check: Option<String>,
}

/// A generated plan: the log's opening note, the steps, the unique success
/// marker appended only when every step ran, and the fixed file names of
/// the script and its log.
#[derive(Debug)]
pub struct ScriptPlan {
    pub intro: String,
    pub steps: Vec<ScriptStep>,
    pub marker: String,
    pub script_name: String,
    pub log_name: String,
}

/// The error note of a step, if it has one, as a character sequence.
pub open spec fn step_check(st: ScriptStep) -> Option<Seq<char>> {
    match st.check {
        Some(n) => Some(n@),
        None => None,
    }
}

/// The opening of every script: quiet mode, then the intro note, which
/// truncates any stale log.
pub open spec fn render_head(intro: Seq<char>, log: Seq<char>) -> Seq<char> {
    "@echo off\necho "@ + intro + " > \""@ + log + "\"\n"@
}

/// One step's rendering: the command with its redirection, then — for a
/// checked step — the early-exit guard that logs an `ERROR:` note and
/// terminates the script so no later step runs.
pub open spec fn render_step(st: ScriptStep, log: Seq<char>) -> Seq<char> {
    (match st.redirect {
        StepRedirect::CaptureToLog => st.text@ + " >> \""@ + log + "\" 2>&1\n"@,
        StepRedirect::AppendToLog => st.text@ + " >> \""@ + log + "\"\n"@,
        StepRedirect::NoRedirect => st.text@ + "\n"@,
    }) + (match st.check {
        Some(note) => "if %errorlevel% neq 0 (\n    echo ERROR: "@ + note@ + " >> \""@ + log
            + "\"\n    exit /b %errorlevel%\n)\n"@,
        None => Seq::<char>::empty(),
    })
}

/// The steps rendered in order.
pub open spec fn render_steps(steps: Seq<ScriptStep>, log: Seq<char>) -> Seq<char>
    decreases steps.len(),
{
    if steps.len() == 0 {
        Seq::<char>::empty()
    } else {
        render_steps(steps.drop_last(), log) + render_step(steps.last(), log)
    }
}

/// The closing line: the success marker, appended only after every step.
pub open spec fn render_tail(marker: Seq<char>, log: Seq<char>) -> Seq<char> {
    "echo "@ + marker + " >> \""@ + log + "\"\n"@
}

/// The whole script for a plan, written against the given log path.
pub open spec fn spec_render(plan: ScriptPlan, log: Seq<char>) -> Seq<char> {
    render_head(plan.intro@, log) + render_steps(plan.steps@, log) + render_tail(plan.marker@, log)
}

/// The plan built for installing: create the service (checked — a failed
/// create ends the script), set its description, start it, in that order.
pub open spec fn plan_matches_install(p: ScriptPlan, exe: Seq<char>) -> bool {
    &&& p.intro@ == "Installing service..."@
    &&& p.marker@ == "Installation complete"@
    &&& p.script_name@ == "zerobyte_install_service.bat"@
    &&& p.log_name@ == "zerobyte_service_install.log"@
    &&& p.steps@.len() == 3
    &&& p.steps@[0].text@ == "sc create C3iBackupONE binPath= \""@ + exe
        + "\" start= auto DisplayName= \"C3i Backup ONE Service\""@
    &&& p.steps@[0].redirect == StepRedirect::CaptureToLog
    &&& step_check(p.steps@[0]) == Some("Failed to create service"@)
    &&& p.steps@[1].text@
        == "sc description C3iBackupONE \"Background backup service for C3i Backup ONE\""@
    &&& p.steps@[1].redirect == StepRedirect::CaptureToLog
    &&& step_check(p.steps@[1]) is None
    &&& p.steps@[2].text@ == "sc start C3iBackupONE"@
    &&& p.steps@[2].redirect == StepRedirect::CaptureToLog
    &&& step_check(p.steps@[2]) is None
}

/// The plan built for uninstalling: stop the service, pause while it winds
/// down, note the deletion, delete it (checked).
pub open spec fn plan_matches_uninstall(p: ScriptPlan) -> bool {
    &&& p.intro@ == "Stopping service..."@
    &&& p.marker@ == "Uninstallation complete"@
    &&& p.script_name@ == "zerobyte_uninstall_service.bat"@
    &&& p.log_name@ == "zerobyte_service_uninstall.log"@
    &&& p.steps@.len() == 4
    &&& p.steps@[0].text@ == "sc stop C3iBackupONE"@
    &&& p.steps@[0].redirect == StepRedirect::CaptureToLog
    &&& step_check(p.steps@[0]) is None
    &&& p.steps@[1].text@ == "timeout /t 3 /nobreak >nul"@
    &&& p.steps@[1].redirect == StepRedirect::NoRedirect
    &&& step_check(p.steps@[1]) is None
    &&& p.steps@[2].text@ == "echo Deleting service..."@
    &&& p.steps@[2].redirect == StepRedirect::AppendToLog
    &&& step_check(p.steps@[2]) is None
    &&& p.steps@[3].text@ == "sc delete C3iBackupONE"@
    &&& p.steps@[3].redirect == StepRedirect::CaptureToLog
    &&& step_check(p.steps@[3]) == Some("Failed to delete service"@)
}

/// The plan built for starting: one checked start command.
pub open spec fn plan_matches_start(p: ScriptPlan) -> bool {
    &&& p.intro@ == "Starting service..."@
    &&& p.marker@ == "Service started"@
    &&& p.script_name@ == "zerobyte_start_service.bat"@
    &&& p.log_name@ == "zerobyte_service_start.log"@
    &&& p.steps@.len() == 1
    &&& p.steps@[0].text@ == "sc start C3iBackupONE"@
    &&& p.steps@[0].redirect == StepRedirect::CaptureToLog
    &&& step_check(p.steps@[0]) == Some("Failed to start service"@)
}

/// The plan built for stopping: one checked stop command.
pub open spec fn plan_matches_stop(p: ScriptPlan) -> bool {
    &&& p.intro@ == "Stopping service..."@
    &&& p.marker@ == "Service stopped"@
    &&& p.script_name@ == "zerobyte_stop_service.bat"@
    &&& p.log_name@ == "zerobyte_service_stop.log"@
    &&& p.steps@.len() == 1
    &&& p.steps@[0].text@ == "sc stop C3iBackupONE"@
    &&& p.steps@[0].redirect == StepRedirect::CaptureToLog
    &&& step_check(p.steps@[0]) == Some("Failed to stop service"@)
}

/// The plan an operation maps to. `install_exe` is the full path of the
/// service binary and is read only by the install plan.
pub open spec fn plan_matches(p: ScriptPlan, op: LifecycleOperation, install_exe: Seq<char>) -> bool {
    match op {
        LifecycleOperation::Install => plan_matches_install(p, install_exe),
        LifecycleOperation::Uninstall => plan_matches_uninstall(p),
        LifecycleOperation::Start => plan_matches_start(p),
        LifecycleOperation::Stop => plan_matches_stop(p),
    }
}

/// Builds the plan for one lifecycle operation.
pub fn build_plan(op: LifecycleOperation, install_exe: &str) -> (p: ScriptPlan)
    ensures
        plan_matches(p, op, install_exe@),
{
    match op {
        LifecycleOperation::Install => {
            let create = String::from_str("sc create C3iBackupONE binPath= \"").concat(
                install_exe,
            ).concat("\" start= auto DisplayName= \"C3i Backup ONE Service\"");
            let steps = vec![
                ScriptStep {
                    text: create,
                    redirect: StepRedirect::CaptureToLog,
                    check: Some(String::from_str("Failed to create service")),
                },
                ScriptStep {
                    text: String::from_str(
                        "sc description C3iBackupONE \"Background backup service for C3i Backup ONE\"",
                    ),
                    redirect: StepRedirect::CaptureToLog,
                    check: None,
                },
                ScriptStep {
                    text: String::from_str("sc start C3iBackupONE"),
                    redirect: StepRedirect::CaptureToLog,
                    check: None,
                },
            ];
            ScriptPlan {
                intro: String::from_str("Installing service..."),
                steps,
                marker: String::from_str("Installation complete"),
                script_name: String::from_str("zerobyte_install_service.bat"),
                log_name: String::from_str("zerobyte_service_install.log"),
            }
        },
        LifecycleOperation::Uninstall => {
            let steps = vec![
                ScriptStep {
                    text: String::from_str("sc stop C3iBackupONE"),
                    redirect: StepRedirect::CaptureToLog,
                    check: None,
                },
                ScriptStep {
                    text: String::from_str("timeout /t 3 /nobreak >nul"),
                    redirect: StepRedirect::NoRedirect,
                    check: None,
                },
                ScriptStep {
                    text: String::from_str("echo Deleting service..."),
                    redirect: StepRedirect::AppendToLog,
                    check: None,
                },
                ScriptStep {
                    text: String::from_str("sc delete C3iBackupONE"),
                    redirect: StepRedirect::CaptureToLog,
                    check: Some(String::from_str("Failed to delete service")),
                },
            ];
            ScriptPlan {
                intro: String::from_str("Stopping service..."),
                steps,
                marker: String::from_str("Uninstallation complete"),
                script_name: String::from_str("zerobyte_uninstall_service.bat"),
                log_name: String::from_str("zerobyte_service_uninstall.log"),
            }
        },
        LifecycleOperation::Start => {
            let steps = vec![
                ScriptStep {
                    text: String::from_str("sc start C3iBackupONE"),
                    redirect: StepRedirect::CaptureToLog,
                    check: Some(String::from_str("Failed to start service")),
                },
            ];
            ScriptPlan {
                intro: String::from_str("Starting service..."),
                steps,
                marker: String::from_str("Service started"),
                script_name: String::from_str("zerobyte_start_service.bat"),
                log_name: String::from_str("zerobyte_service_start.log"),
            }
        },
        LifecycleOperation::Stop => {
            let steps = vec![
                ScriptStep {
                    text: String::from_str("sc stop C3iBackupONE"),
                    redirect: StepRedirect::CaptureToLog,
                    check: Some(String::from_str("Failed to stop service")),
                },
            ];
            ScriptPlan {
                intro: String::from_str("Stopping service..."),
                steps,
                marker: String::from_str("Service stopped"),
                script_name: String::from_str("zerobyte_stop_service.bat"),
                log_name: String::from_str("zerobyte_service_stop.log"),
            }
        },
    }
}

proof fn lemma_render_steps_snoc(steps: Seq<ScriptStep>, log: Seq<char>, i: int)
    requires
        0 <= i < steps.len(),
    ensures
        render_steps(steps.take(i + 1), log) == render_steps(steps.take(i), log) + render_step(
            steps[i],
            log,
        ),
{
    let pre = steps.take(i + 1);
    assert(pre.len() == i + 1);
    assert(pre.drop_last() =~= steps.take(i));
    assert(pre.last() == steps[i]);
}

/// Renders one step.
fn render_step_exec(st: &ScriptStep, log_path: &str) -> (r: String)
    ensures
        r@ == render_step(*st, log_path@),
{
    let mut s = String::from_str(st.text.as_str());
    match st.redirect {
        StepRedirect::CaptureToLog => {
            s.append(" >> \"");
            s.append(log_path);
            s.append("\" 2>&1\n");
        },
        StepRedirect::AppendToLog => {
            s.append(" >> \"");
            s.append(log_path);
            s.append("\"\n");
        },
        StepRedirect::NoRedirect => {
            s.append("\n");
        },
    }
    match &st.check {
        Some(note) => {
            s.append("if %errorlevel% neq 0 (\n    echo ERROR: ");
            s.append(note.as_str());
            s.append(" >> \"");
            s.append(log_path);
            s.append("\"\n    exit /b %errorlevel%\n)\n");
        },
        None => {},
    }
    assert(s@ =~= render_step(*st, log_path@));
    s
}

/// Renders a plan to the script text, step by step.
pub fn render_script(plan: &ScriptPlan, log_path: &str) -> (r: String)
    ensures
        r@ == spec_render(*plan, log_path@),
{
    let mut s = String::from_str("@echo off\necho ");
    s.append(plan.intro.as_str());
    s.append(" > \"");
    s.append(log_path);
    s.append("\"\n");
    assert(s@ =~= render_head(plan.intro@, log_path@));
    let ghost head = s@;
    assert(plan.steps@.take(0int) =~= Seq::<ScriptStep>::empty());
    assert(s@ =~= head + render_steps(plan.steps@.take(0int), log_path@));

    let n = plan.steps.len();
    let mut i: usize = 0;
    while i < n
        invariant
            n == plan.steps@.len(),
            i <= n,
            s@ == head + render_steps(plan.steps@.take(i as int), log_path@),
            head == render_head(plan.intro@, log_path@),
        decreases n - i,
    {
        let piece = render_step_exec(&plan.steps[i], log_path);
        s.append(piece.as_str());
        proof {
            lemma_render_steps_snoc(plan.steps@, log_path@, i as int);
            assert(s@ =~= head + render_steps(plan.steps@.take(i as int + 1), log_path@));
        }
        i += 1;
    }
    assert(plan.steps@.take(n as int) =~= plan.steps@);

    s.append("echo ");
    s.append(plan.marker.as_str());
    s.append(" >> \"");
    s.append(log_path);
    s.append("\"\n");
    assert(s@ =~= spec_render(*plan, log_path@));
    s
}

} // verus!
