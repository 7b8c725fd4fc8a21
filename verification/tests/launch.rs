use dumb_init::launch::{exec_failure_message, LaunchFailure};

#[test]
fn a_command_that_cannot_be_started_gives_exit_code_2() {
    assert_eq!(LaunchFailure::Exec.exit_code(), Some(2));
    let message = exec_failure_message("no-such-command", "No such file or directory");
    assert_eq!(message, "no-such-command: No such file or directory");
    assert!(message.starts_with("no-such-command"));
}

#[test]
fn failing_to_make_the_child_or_its_session_gives_exit_code_1() {
    assert_eq!(LaunchFailure::Fork.exit_code(), Some(1));
    assert_eq!(LaunchFailure::NewSession.exit_code(), Some(1));
}

#[test]
fn failures_about_terminal_and_directory_are_not_fatal() {
    assert_eq!(LaunchFailure::Detach.exit_code(), None);
    assert_eq!(LaunchFailure::ClaimTerminal.exit_code(), None);
    assert_eq!(LaunchFailure::ChangeDirectory.exit_code(), None);
}

#[test]
fn the_report_keeps_command_and_reason_as_they_are() {
    assert_eq!(exec_failure_message("", ""), ": ");
    assert_eq!(exec_failure_message("a: b", "c"), "a: b: c");
    assert_eq!(
        exec_failure_message("/bin/\u{e9}", "Permission denied"),
        "/bin/\u{e9}: Permission denied"
    );
}
