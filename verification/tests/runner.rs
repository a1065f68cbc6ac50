use pdf_studio_ops::elevate::{
    log_file_name, next_action, runner_step, script_file_name, wrap_script, RunnerAction,
    RunnerEvent, RunnerState,
};
use pdf_studio_ops::OpsError;

/// Drive the protocol from `Ready` to `Finished` with scripted observations,
/// recording every action the protocol asked for along the way.
fn drive(
    write_result: Result<(), String>,
    launch: Option<(bool, String)>,
    log: Option<String>,
) -> (Vec<RunnerAction>, Result<(), OpsError>) {
    let mut state = RunnerState::Ready;
    let mut actions = Vec::new();
    loop {
        let action = next_action(&state);
        actions.push(action);
        let event = match action {
            RunnerAction::WriteScriptFile => RunnerEvent::WriteDone(write_result.clone()),
            RunnerAction::LaunchAndWait => match &launch {
                None => RunnerEvent::LaunchFailed(String::from("spawn refused")),
                Some((exit_ok, stderr)) => RunnerEvent::Exited {
                    exit_ok: *exit_ok,
                    stderr: stderr.clone(),
                },
            },
            RunnerAction::ReadLogFile => RunnerEvent::LogRead(log.clone()),
            RunnerAction::RemoveTempFiles => RunnerEvent::Cleaned,
            RunnerAction::Report => {
                if let RunnerState::Finished { verdict } = state {
                    return (actions, verdict);
                }
                panic!("report asked outside the finished state");
            }
        };
        state = runner_step(state, event);
    }
}

fn cleanup_precedes_report(actions: &[RunnerAction]) -> bool {
    let cleanup = actions
        .iter()
        .position(|a| *a == RunnerAction::RemoveTempFiles);
    let report = actions.iter().position(|a| *a == RunnerAction::Report);
    match (cleanup, report) {
        (Some(c), Some(r)) => c < r,
        _ => false,
    }
}

#[test]
fn success_sentinel_reports_success() {
    let (actions, verdict) = drive(
        Ok(()),
        Some((true, String::new())),
        Some(String::from("OK\r\n")),
    );
    assert!(verdict.is_ok());
    assert!(cleanup_precedes_report(&actions));
}

#[test]
fn bom_prefixed_sentinel_reports_success() {
    let (_, verdict) = drive(
        Ok(()),
        Some((true, String::new())),
        Some(String::from("\u{feff}OK")),
    );
    assert!(verdict.is_ok());
}

#[test]
fn missing_log_reports_no_output() {
    let (actions, verdict) = drive(Ok(()), Some((true, String::new())), None);
    assert!(matches!(verdict, Err(OpsError::NoOutput)));
    assert!(cleanup_precedes_report(&actions));
}

#[test]
fn empty_log_reports_no_output() {
    let (_, verdict) = drive(
        Ok(()),
        Some((true, String::new())),
        Some(String::from(" \r\n")),
    );
    assert!(matches!(verdict, Err(OpsError::NoOutput)));
}

#[test]
fn failure_message_reports_script_error() {
    let (actions, verdict) = drive(
        Ok(()),
        Some((true, String::new())),
        Some(String::from("Access is denied\r\n")),
    );
    match verdict {
        Err(OpsError::ScriptError(m)) => {
            assert_eq!(m, "Elevated script error: Access is denied");
        }
        other => panic!("expected a script error, got {:?}", other.map_err(|e| e.message())),
    }
    assert!(cleanup_precedes_report(&actions));
}

#[test]
fn write_failure_cleans_up_and_reports_io_error() {
    let (actions, verdict) = drive(
        Err(String::from("disk full")),
        Some((true, String::new())),
        None,
    );
    match verdict {
        Err(OpsError::IoError(m)) => {
            assert_eq!(m, "Failed to write temp script: disk full");
        }
        other => panic!("expected an io error, got {:?}", other.map_err(|e| e.message())),
    }
    assert!(cleanup_precedes_report(&actions));
}

#[test]
fn spawn_failure_cleans_up_and_reports_launch_failure() {
    let (actions, verdict) = drive(Ok(()), None, None);
    match verdict {
        Err(OpsError::LaunchFailure(m)) => {
            assert_eq!(m, "Failed to launch elevated process: spawn refused");
        }
        other => panic!("expected a launch failure, got {:?}", other.map_err(|e| e.message())),
    }
    assert!(cleanup_precedes_report(&actions));
}

#[test]
fn nonzero_exit_reports_launch_failure() {
    let (_, verdict) = drive(
        Ok(()),
        Some((false, String::from("denied"))),
        Some(String::from("OK")),
    );
    match verdict {
        Err(OpsError::LaunchFailure(m)) => {
            assert_eq!(m, "Elevation failed: denied");
        }
        other => panic!("expected a launch failure, got {:?}", other.map_err(|e| e.message())),
    }
}

#[test]
fn wrap_script_builds_exact_envelope() {
    let wrapped = wrap_script("Add-Printer -Name 'X'", "C:\\t\\ops_printer_7.log");
    let expected = "try {\nAdd-Printer -Name 'X'\n'OK' | Out-File -FilePath 'C:\\t\\ops_printer_7.log' -Encoding UTF8\n} catch {\n$_.Exception.Message | Out-File -FilePath 'C:\\t\\ops_printer_7.log' -Encoding UTF8\nexit 1\n}";
    assert_eq!(wrapped, expected);
}

#[test]
fn temp_file_names_follow_the_stamp() {
    assert_eq!(script_file_name(1712345678901), "ops_printer_1712345678901.ps1");
    assert_eq!(log_file_name(1712345678901), "ops_printer_1712345678901.log");
    assert_eq!(script_file_name(0), "ops_printer_0.ps1");
    assert_eq!(log_file_name(u64::MAX), "ops_printer_18446744073709551615.log");
    assert_ne!(script_file_name(1), script_file_name(2));
    assert_ne!(script_file_name(3), log_file_name(3));
}

#[test]
fn no_output_message_names_the_prompt() {
    let m = OpsError::NoOutput.message();
    assert_eq!(
        m,
        "Elevated script produced no output - user may have cancelled the privilege prompt"
    );
}

#[test]
fn unsupported_platform_has_its_own_message() {
    let m = OpsError::UnsupportedPlatform.message();
    assert_eq!(m, "Operation is not supported on this platform");
}
