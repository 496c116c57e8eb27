use container_lifecycle::lifecycle::{
    framed_diagnostics, Action, Event, Outcome, Phase, Supervisor, WorkError,
};
use container_lifecycle::runner::FatalError;

fn command_ok(text: &str) -> Event {
    Event::Command { result: Ok(text.to_string()) }
}

fn command_err(error: FatalError) -> Event {
    Event::Command { result: Err(error) }
}

fn work_ok() -> Event {
    Event::Work { status: Ok(()) }
}

fn work_err(message: &str) -> Event {
    Event::Work { status: Err(WorkError { message: message.to_string() }) }
}

#[test]
fn successful_run_kills_started_container() {
    let start = vec![
        "--rm".to_string(),
        "alpine".to_string(),
        "echo".to_string(),
        "ok".to_string(),
    ];
    let (mut s, a0) = Supervisor::begin(start.clone());
    match a0 {
        Action::InvokeRun { ref args } => assert_eq!(*args, start),
        _ => panic!("expected the start action first"),
    }
    let a1 = s.step(command_ok("ok"));
    assert!(matches!(a1, Action::DoWork));
    let a2 = s.step(work_ok());
    match a2 {
        Action::InvokeKill { handle } => assert_eq!(handle, "ok"),
        _ => panic!("expected exactly one teardown next"),
    }
    let a3 = s.step(command_ok(""));
    assert!(matches!(a3, Action::Finish));
    match s.phase {
        Phase::Done { outcome: Outcome::Completed } => {},
        _ => panic!("expected a completed run"),
    }
}

#[test]
fn start_failure_finishes_without_teardown() {
    let (mut s, a0) = Supervisor::begin(vec!["alpine".to_string()]);
    assert!(matches!(a0, Action::InvokeRun { .. }));
    let spawn = FatalError::Spawn {
        subcommand: "run".to_string(),
        message: "No such file or directory".to_string(),
    };
    let a1 = s.step(command_err(spawn));
    assert!(matches!(a1, Action::Finish));
    match s.phase {
        Phase::Done {
            outcome: Outcome::Fatal { error: FatalError::Spawn { subcommand, .. }, work_failure },
        } => {
            assert_eq!(subcommand, "run");
            assert!(work_failure.is_none());
        },
        _ => panic!("expected a fatal start outcome"),
    }
}

#[test]
fn work_failure_fetches_logs_then_kills_then_reraises() {
    let (mut s, _a0) = Supervisor::begin(vec!["alpine".to_string()]);
    let a1 = s.step(command_ok("c71f"));
    assert!(matches!(a1, Action::DoWork));
    let a2 = s.step(work_err("assertion failed: wrong stdout"));
    match a2 {
        Action::InvokeLogs { handle } => assert_eq!(handle, "c71f"),
        _ => panic!("expected the log fetch right after the work failed"),
    }
    let a3 = s.step(command_ok("container log line"));
    match a3 {
        Action::PrintDiagnostics { logs } => assert_eq!(logs, "container log line"),
        _ => panic!("expected the diagnostics print"),
    }
    let a4 = s.step(Event::Printed);
    match a4 {
        Action::InvokeKill { handle } => assert_eq!(handle, "c71f"),
        _ => panic!("expected the teardown after the diagnostics"),
    }
    let a5 = s.step(command_ok(""));
    assert!(matches!(a5, Action::Finish));
    match s.phase {
        Phase::Done { outcome: Outcome::WorkFailed { failure } } => {
            assert_eq!(failure.message, "assertion failed: wrong stdout");
        },
        _ => panic!("expected the original work failure back"),
    }
}

#[test]
fn failed_log_fetch_still_tears_down_and_keeps_both_failures() {
    let (mut s, _a0) = Supervisor::begin(vec!["alpine".to_string()]);
    s.step(command_ok("c71f"));
    s.step(work_err("boom"));
    let logs_error = FatalError::ExitFailure { subcommand: "logs".to_string(), stdout: Vec::new() };
    let a = s.step(command_err(logs_error));
    match a {
        Action::InvokeKill { handle } => assert_eq!(handle, "c71f"),
        _ => panic!("expected the teardown even though the log fetch failed"),
    }
    let b = s.step(command_ok(""));
    assert!(matches!(b, Action::Finish));
    match s.phase {
        Phase::Done {
            outcome:
                Outcome::Fatal {
                    error: FatalError::ExitFailure { subcommand, .. },
                    work_failure: Some(failure),
                },
        } => {
            assert_eq!(subcommand, "logs");
            assert_eq!(failure.message, "boom");
        },
        _ => panic!("expected the log-fetch failure with the work failure carried"),
    }
}

#[test]
fn failed_teardown_after_clean_work_is_fatal() {
    let (mut s, _a0) = Supervisor::begin(vec!["alpine".to_string()]);
    s.step(command_ok("c71f"));
    s.step(work_ok());
    let kill_error = FatalError::ExitFailure { subcommand: "kill".to_string(), stdout: Vec::new() };
    let a = s.step(command_err(kill_error));
    assert!(matches!(a, Action::Finish));
    match s.phase {
        Phase::Done {
            outcome:
                Outcome::Fatal { error: FatalError::ExitFailure { subcommand, .. }, work_failure },
        } => {
            assert_eq!(subcommand, "kill");
            assert!(work_failure.is_none());
        },
        _ => panic!("expected a fatal teardown outcome"),
    }
}

#[test]
fn failed_teardown_after_work_failure_keeps_the_original() {
    let (mut s, _a0) = Supervisor::begin(vec!["alpine".to_string()]);
    s.step(command_ok("c71f"));
    s.step(work_err("boom"));
    s.step(command_ok("some logs"));
    s.step(Event::Printed);
    let kill_error = FatalError::ExitFailure { subcommand: "kill".to_string(), stdout: Vec::new() };
    let a = s.step(command_err(kill_error));
    assert!(matches!(a, Action::Finish));
    match s.phase {
        Phase::Done {
            outcome:
                Outcome::Fatal {
                    error: FatalError::ExitFailure { subcommand, .. },
                    work_failure: Some(failure),
                },
        } => {
            assert_eq!(subcommand, "kill");
            assert_eq!(failure.message, "boom");
        },
        _ => panic!("expected the teardown failure with the work failure carried"),
    }
}

#[test]
fn run_action_builds_the_run_command_line() {
    let action = Action::InvokeRun {
        args: vec!["--rm".to_string(), "alpine".to_string(), "; rm -rf /".to_string()],
    };
    let inv = action.command_line().expect("a run action has a command line");
    assert_eq!(inv.program, "docker");
    assert_eq!(
        inv.tokens,
        vec![
            "run".to_string(),
            "--rm".to_string(),
            "alpine".to_string(),
            "; rm -rf /".to_string(),
        ]
    );
}

#[test]
fn logs_and_kill_actions_address_the_handle() {
    let logs = Action::InvokeLogs { handle: "c71f".to_string() };
    let inv = logs.command_line().expect("a logs action has a command line");
    assert_eq!(inv.program, "docker");
    assert_eq!(inv.tokens, vec!["logs".to_string(), "c71f".to_string()]);
    let kill = Action::InvokeKill { handle: "c71f".to_string() };
    let inv = kill.command_line().expect("a kill action has a command line");
    assert_eq!(inv.tokens, vec!["kill".to_string(), "c71f".to_string()]);
}

#[test]
fn work_and_finish_actions_have_no_command_line() {
    assert!(Action::DoWork.command_line().is_none());
    assert!(Action::Finish.command_line().is_none());
}

#[test]
fn diagnostics_are_bracketed_by_a_header() {
    let text = framed_diagnostics(&"hello world\n".to_string());
    assert_eq!(text, "\n---- docker stdout ----\nhello world\n");
}
