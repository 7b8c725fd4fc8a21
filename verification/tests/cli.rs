use dumb_init::cli::{read_command_line, OptionFailure};

fn words(list: &[&str]) -> Vec<String> {
    list.iter().map(|s| s.to_string()).collect()
}

#[test]
fn options_stop_at_the_command() {
    let line =
        read_command_line(&words(&["-v", "-r", "15:9", "--rewrite=2:0", "sh", "-c", "true", "-h"]))
            .unwrap();
    assert!(line.verbose);
    assert!(!line.single_child);
    assert!(!line.help);
    assert!(!line.version);
    assert_eq!(line.rewrites, words(&["15:9", "2:0"]));
    assert_eq!(line.command, words(&["sh", "-c", "true", "-h"]));
}

#[test]
fn every_option_has_a_short_and_a_long_name() {
    let short = read_command_line(&words(&["-c", "-v", "-h", "-V", "-r", "1:2", "true"])).unwrap();
    let long = read_command_line(&words(&[
        "--single-child",
        "--verbose",
        "--help",
        "--version",
        "--rewrite",
        "1:2",
        "true",
    ]))
    .unwrap();
    assert_eq!(short, long);
    assert!(short.single_child && short.verbose && short.help && short.version);
    assert_eq!(short.rewrites, words(&["1:2"]));
    assert_eq!(short.command, words(&["true"]));
}

#[test]
fn clustered_flags_and_attached_arguments_are_read() {
    let line = read_command_line(&words(&["-cv", "-r15:9", "true"])).unwrap();
    assert!(line.single_child && line.verbose);
    assert_eq!(line.rewrites, words(&["15:9"]));
    assert_eq!(line.command, words(&["true"]));
}

#[test]
fn empty_command_line_has_no_command() {
    let line = read_command_line(&words(&[])).unwrap();
    assert!(!line.single_child && !line.verbose && !line.help && !line.version);
    assert!(line.rewrites.is_empty());
    assert!(line.command.is_empty());
}

#[test]
fn double_dash_ends_the_options() {
    let line = read_command_line(&words(&["-v", "--", "-c", "x"])).unwrap();
    assert!(line.verbose);
    assert!(!line.single_child);
    assert_eq!(line.command, words(&["-c", "x"]));
}

#[test]
fn unknown_option_is_refused() {
    let e = read_command_line(&words(&["-x", "true"])).unwrap_err();
    assert_eq!(e.kind, OptionFailure::UnrecognizedOption);
    assert_eq!(e.name, "x");
    let e = read_command_line(&words(&["--nope", "true"])).unwrap_err();
    assert_eq!(e.kind, OptionFailure::UnrecognizedOption);
    assert_eq!(e.name, "nope");
}

#[test]
fn other_refusals_are_told_apart() {
    let e = read_command_line(&words(&["-r"])).unwrap_err();
    assert_eq!(e.kind, OptionFailure::ArgumentMissing);
    let e = read_command_line(&words(&["-v", "-v", "true"])).unwrap_err();
    assert_eq!(e.kind, OptionFailure::OptionDuplicated);
    let e = read_command_line(&words(&["--verbose=1", "true"])).unwrap_err();
    assert_eq!(e.kind, OptionFailure::UnexpectedArgument);
}
