use service_lifecycle::script::{build_plan, render_script, LifecycleOperation};

#[test]
fn install_script_exact_text() {
    let exe = "C:\\App\\binaries\\zerobyte-service.exe";
    let log = "C:\\Temp\\zerobyte_service_install.log";
    let plan = build_plan(LifecycleOperation::Install, exe);
    assert_eq!(plan.script_name, "zerobyte_install_service.bat");
    assert_eq!(plan.log_name, "zerobyte_service_install.log");
    assert_eq!(plan.marker, "Installation complete");
    let text = render_script(&plan, log);
    let expected = format!(
        "@echo off\n\
         echo Installing service... > \"{log}\"\n\
         sc create C3iBackupONE binPath= \"{exe}\" start= auto DisplayName= \"C3i Backup ONE Service\" >> \"{log}\" 2>&1\n\
         if %errorlevel% neq 0 (\n    echo ERROR: Failed to create service >> \"{log}\"\n    exit /b %errorlevel%\n)\n\
         sc description C3iBackupONE \"Background backup service for C3i Backup ONE\" >> \"{log}\" 2>&1\n\
         sc start C3iBackupONE >> \"{log}\" 2>&1\n\
         echo Installation complete >> \"{log}\"\n",
        log = log,
        exe = exe
    );
    assert_eq!(text, expected);
}

#[test]
fn uninstall_script_exact_text() {
    let log = "C:\\Temp\\zerobyte_service_uninstall.log";
    let plan = build_plan(LifecycleOperation::Uninstall, "");
    assert_eq!(plan.script_name, "zerobyte_uninstall_service.bat");
    assert_eq!(plan.log_name, "zerobyte_service_uninstall.log");
    assert_eq!(plan.marker, "Uninstallation complete");
    let text = render_script(&plan, log);
    let expected = format!(
        "@echo off\n\
         echo Stopping service... > \"{log}\"\n\
         sc stop C3iBackupONE >> \"{log}\" 2>&1\n\
         timeout /t 3 /nobreak >nul\n\
         echo Deleting service... >> \"{log}\"\n\
         sc delete C3iBackupONE >> \"{log}\" 2>&1\n\
         if %errorlevel% neq 0 (\n    echo ERROR: Failed to delete service >> \"{log}\"\n    exit /b %errorlevel%\n)\n\
         echo Uninstallation complete >> \"{log}\"\n",
        log = log
    );
    assert_eq!(text, expected);
}

#[test]
fn start_script_exact_text() {
    let log = "C:\\Temp\\zerobyte_service_start.log";
    let plan = build_plan(LifecycleOperation::Start, "");
    assert_eq!(plan.script_name, "zerobyte_start_service.bat");
    assert_eq!(plan.log_name, "zerobyte_service_start.log");
    assert_eq!(plan.marker, "Service started");
    let text = render_script(&plan, log);
    let expected = format!(
        "@echo off\n\
         echo Starting service... > \"{log}\"\n\
         sc start C3iBackupONE >> \"{log}\" 2>&1\n\
         if %errorlevel% neq 0 (\n    echo ERROR: Failed to start service >> \"{log}\"\n    exit /b %errorlevel%\n)\n\
         echo Service started >> \"{log}\"\n",
        log = log
    );
    assert_eq!(text, expected);
}

#[test]
fn stop_script_exact_text() {
    let log = "C:\\Temp\\zerobyte_service_stop.log";
    let plan = build_plan(LifecycleOperation::Stop, "");
    assert_eq!(plan.script_name, "zerobyte_stop_service.bat");
    assert_eq!(plan.log_name, "zerobyte_service_stop.log");
    assert_eq!(plan.marker, "Service stopped");
    let text = render_script(&plan, log);
    let expected = format!(
        "@echo off\n\
         echo Stopping service... > \"{log}\"\n\
         sc stop C3iBackupONE >> \"{log}\" 2>&1\n\
         if %errorlevel% neq 0 (\n    echo ERROR: Failed to stop service >> \"{log}\"\n    exit /b %errorlevel%\n)\n\
         echo Service stopped >> \"{log}\"\n",
        log = log
    );
    assert_eq!(text, expected);
}

#[test]
fn markers_are_distinct_per_operation() {
    let install = build_plan(LifecycleOperation::Install, "x");
    let uninstall = build_plan(LifecycleOperation::Uninstall, "");
    let start = build_plan(LifecycleOperation::Start, "");
    let stop = build_plan(LifecycleOperation::Stop, "");
    assert_ne!(install.marker, uninstall.marker);
    assert_ne!(install.marker, start.marker);
    assert_ne!(install.marker, stop.marker);
    assert_ne!(uninstall.marker, start.marker);
    assert_ne!(uninstall.marker, stop.marker);
    assert_ne!(start.marker, stop.marker);
}
