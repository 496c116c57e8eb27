use container_lifecycle::runner::{
    build_invocation, interpret_report, trim_end_text, FatalError, ProcessReport,
};

#[test]
fn trim_removes_trailing_newline() {
    assert_eq!(trim_end_text("ok\n"), "ok");
}

#[test]
fn trim_removes_mixed_trailing_whitespace() {
    assert_eq!(trim_end_text("abc \t\r\n"), "abc");
}

#[test]
fn trim_removes_vertical_tab_and_form_feed() {
    assert_eq!(trim_end_text("ok\u{b}"), "ok");
    assert_eq!(trim_end_text("ok\u{c}\u{b}\n"), "ok");
}

#[test]
fn trim_removes_unicode_whitespace() {
    assert_eq!(trim_end_text("ok\u{a0}\u{2003}\u{2028}\u{3000}"), "ok");
}

#[test]
fn trim_keeps_interior_whitespace() {
    assert_eq!(trim_end_text("a b\nc\n"), "a b\nc");
}

#[test]
fn trim_of_only_whitespace_is_empty() {
    assert_eq!(trim_end_text(" \n\t\r"), "");
}

#[test]
fn trim_of_empty_is_empty() {
    assert_eq!(trim_end_text(""), "");
}

#[test]
fn successful_exit_yields_trimmed_text() {
    let r = interpret_report(
        "run".to_string(),
        ProcessReport::Exited { success: true, stdout: b"ok\n".to_vec() },
    );
    match r {
        Ok(text) => assert_eq!(text, "ok"),
        Err(_) => panic!("expected captured text"),
    }
}

#[test]
fn successful_exit_keeps_non_ascii_text() {
    let r = interpret_report(
        "logs".to_string(),
        ProcessReport::Exited { success: true, stdout: "héllo wörld\n".as_bytes().to_vec() },
    );
    match r {
        Ok(text) => assert_eq!(text, "héllo wörld"),
        Err(_) => panic!("expected captured text"),
    }
}

#[test]
fn spawn_failure_names_subcommand() {
    let r = interpret_report(
        "run".to_string(),
        ProcessReport::SpawnFailed { message: "No such file or directory".to_string() },
    );
    match r {
        Err(FatalError::Spawn { subcommand, message }) => {
            assert_eq!(subcommand, "run");
            assert_eq!(message, "No such file or directory");
        },
        _ => panic!("expected a spawn failure"),
    }
}

#[test]
fn spawn_failure_diagnostic_text() {
    let e = FatalError::Spawn {
        subcommand: "run".to_string(),
        message: "No such file or directory".to_string(),
    };
    assert_eq!(e.describe(), "error invoking `docker run`: No such file or directory");
}

#[test]
fn nonzero_exit_is_fatal_and_keeps_output() {
    let r = interpret_report(
        "kill".to_string(),
        ProcessReport::Exited { success: false, stdout: b"partial\n".to_vec() },
    );
    match r {
        Err(FatalError::ExitFailure { subcommand, stdout }) => {
            assert_eq!(subcommand, "kill");
            assert_eq!(stdout, b"partial\n".to_vec());
        },
        _ => panic!("expected an exit failure"),
    }
}

#[test]
fn successful_exit_trims_vertical_tab() {
    let r = interpret_report(
        "run".to_string(),
        ProcessReport::Exited { success: true, stdout: b"ok\x0b".to_vec() },
    );
    match r {
        Ok(text) => assert_eq!(text, "ok"),
        Err(_) => panic!("expected captured text"),
    }
}

#[test]
fn nonzero_exit_diagnostic_text() {
    let e = FatalError::ExitFailure { subcommand: "kill".to_string(), stdout: Vec::new() };
    assert_eq!(e.describe(), "`docker kill` exited with error status; captured stdout: []");
}

#[test]
fn nonzero_exit_diagnostic_includes_captured_output() {
    let e = FatalError::ExitFailure { subcommand: "kill".to_string(), stdout: b"hi\n".to_vec() };
    assert_eq!(
        e.describe(),
        "`docker kill` exited with error status; captured stdout: [104, 105, 10]"
    );
}

#[test]
fn invalid_utf8_output_is_fatal() {
    let r = interpret_report(
        "logs".to_string(),
        ProcessReport::Exited { success: true, stdout: vec![0xff, 0xfe, b'\n'] },
    );
    match r {
        Err(FatalError::NonTextOutput { subcommand }) => assert_eq!(subcommand, "logs"),
        _ => panic!("expected a decoding failure"),
    }
}

#[test]
fn invalid_utf8_diagnostic_text() {
    let e = FatalError::NonTextOutput { subcommand: "logs".to_string() };
    assert_eq!(e.describe(), "`docker logs`: UTF-8 error decoding output");
}

#[test]
fn invocation_keeps_tokens_discrete() {
    let inv = build_invocation(
        "docker".to_string(),
        "run".to_string(),
        vec!["--rm".to_string(), "alpine".to_string()],
    );
    assert_eq!(inv.program, "docker");
    assert_eq!(inv.tokens, vec!["run".to_string(), "--rm".to_string(), "alpine".to_string()]);
}

#[test]
fn shell_metacharacters_stay_one_token() {
    let hostile = "; rm -rf /".to_string();
    let inv = build_invocation("docker".to_string(), "run".to_string(), vec![hostile.clone()]);
    assert_eq!(inv.tokens.len(), 2);
    assert_eq!(inv.tokens[1], hostile);
}
