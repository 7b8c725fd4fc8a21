use dumb_init::config::{parse_command, Config, Startup};
use dumb_init::ignore::IgnoreFlags;
use dumb_init::rewrite::RewriteTable;
use dumb_init::signal::{
    is_job_control, MAXSIG, SIGCHLD, SIGCONT, SIGHUP, SIGSTOP, SIGTERM, SIGTSTP, SIGTTIN, SIGTTOU,
};
use dumb_init::supervisor::{Delivery, Dispatch, Supervisor};

fn resolved(list: &[&str]) -> (Config, RewriteTable) {
    let args: Vec<String> = list.iter().map(|s| s.to_string()).collect();
    match parse_command(&args, "", "") {
        Startup::Run { config, table } => (config, table),
        other => panic!("{:?}", other),
    }
}

fn supervisor(list: &[&str], child: i32) -> Supervisor {
    let (config, table) = resolved(list);
    Supervisor::new(&config, table, IgnoreFlags::none(), child).unwrap()
}

fn forward(target: i32, signal: i32, suspend: bool) -> Dispatch {
    Dispatch::Forward { delivery: Some(Delivery { target, signal }), suspend }
}

#[test]
fn signal_numbers_are_those_of_linux() {
    assert_eq!(
        (SIGHUP, SIGTERM, SIGCHLD, SIGCONT, SIGSTOP, SIGTSTP, SIGTTIN, SIGTTOU, MAXSIG),
        (1, 15, 17, 18, 19, 20, 21, 22, 31)
    );
    for signum in -2..70 {
        assert_eq!(is_job_control(signum), signum == 20 || signum == 21 || signum == 22);
    }
}

#[test]
fn a_child_needs_a_positive_process_id() {
    for child in [0, -1, -42, i32::MIN] {
        let (config, table) = resolved(&["true"]);
        assert!(Supervisor::new(&config, table, IgnoreFlags::none(), child).is_none());
    }
    let (config, table) = resolved(&["-v", "true"]);
    let sup = Supervisor::new(&config, table, IgnoreFlags::none(), 1).unwrap();
    assert_eq!(sup.child(), 1);
    assert!(sup.process_group());
    assert!(sup.debug());
}

#[test]
fn signals_go_to_the_process_group() {
    let mut sup = supervisor(&["true"], 42);
    assert_eq!(sup.handle_signal(SIGTERM), forward(-42, SIGTERM, false));
    assert_eq!(sup.handle_signal(2), forward(-42, 2, false));
    assert_eq!(sup.forward_signal(SIGHUP), Some(Delivery { target: -42, signal: SIGHUP }));
    assert_eq!(sup.translate_signal(SIGTERM), Some(SIGTERM));
}

#[test]
fn single_child_mode_signals_the_child_alone() {
    let mut sup = supervisor(&["-c", "true"], 42);
    assert!(!sup.process_group());
    for signum in 1..=31 {
        if signum == SIGCHLD {
            continue;
        }
        assert_eq!(sup.handle_signal(signum), forward(42, signum, is_job_control(signum)));
    }
}

#[test]
fn child_status_signal_asks_for_a_reap() {
    let mut sup = supervisor(&["true"], 42);
    assert_eq!(sup.handle_signal(SIGCHLD), Dispatch::Reap);
    let mut sup = supervisor(&["-c", "-r", "17:0", "true"], 42);
    assert_eq!(sup.handle_signal(SIGCHLD), Dispatch::Reap);
}

#[test]
fn job_control_stops_are_rewritten_and_suspend_the_supervisor() {
    let mut sup = supervisor(&["true"], 7);
    for signum in [SIGTSTP, SIGTTOU, SIGTTIN] {
        assert_eq!(sup.handle_signal(signum), forward(-7, SIGSTOP, true));
    }
    assert_eq!(sup.handle_signal(SIGSTOP), forward(-7, SIGSTOP, false));
}

#[test]
fn a_dropped_job_control_stop_still_suspends_the_supervisor() {
    let mut sup = supervisor(&["-r", "20:0", "true"], 7);
    assert_eq!(sup.handle_signal(SIGTSTP), Dispatch::Forward { delivery: None, suspend: true });
    assert_eq!(sup.forward_signal(SIGTSTP), None);
}

#[test]
fn rewritten_and_dropped_signals_are_forwarded_accordingly() {
    let mut sup = supervisor(&["-r", "15:9", "-r", "2:0", "true"], 9);
    assert_eq!(sup.handle_signal(15), forward(-9, 9, false));
    assert_eq!(sup.handle_signal(2), Dispatch::Forward { delivery: None, suspend: false });
    assert_eq!(sup.handle_signal(3), forward(-9, 3, false));
}

#[test]
fn signals_outside_the_table_are_forwarded_as_they_are() {
    let mut sup = supervisor(&["-r", "1:0", "-r", "31:0", "true"], 9);
    for signum in [0, -1, 32, 34, 64, 127, i32::MAX, i32::MIN] {
        assert_eq!(sup.handle_signal(signum), forward(-9, signum, false));
        assert_eq!(sup.translate_signal(signum), Some(signum));
    }
}

#[test]
fn a_session_leader_that_detached_ignores_one_hangup_and_one_continue() {
    let (config, table) = resolved(&["true"]);
    let flags = IgnoreFlags::after_detach(&config, true, Some(100), 100);
    assert!(flags.is_armed(SIGHUP));
    assert!(flags.is_armed(SIGCONT));
    for signum in -1..70 {
        assert_eq!(flags.is_armed(signum), signum == SIGHUP || signum == SIGCONT);
    }
    let mut sup = Supervisor::new(&config, table, flags, 5).unwrap();
    assert_eq!(sup.handle_signal(SIGTERM), forward(-5, SIGTERM, false));
    assert_eq!(sup.handle_signal(SIGHUP), Dispatch::Swallow);
    assert_eq!(sup.handle_signal(SIGHUP), forward(-5, SIGHUP, false));
    assert_eq!(sup.handle_signal(SIGHUP), forward(-5, SIGHUP, false));
    assert_eq!(sup.handle_signal(SIGCONT), Dispatch::Swallow);
    assert_eq!(sup.handle_signal(SIGCONT), forward(-5, SIGCONT, false));
    assert_eq!(sup.handle_signal(SIGCONT), forward(-5, SIGCONT, false));
}

#[test]
fn an_armed_signal_is_swallowed_even_where_a_rule_rewrites_it() {
    let (config, table) = resolved(&["-r", "1:15", "true"]);
    let flags = IgnoreFlags::after_detach(&config, true, Some(3), 3);
    let mut sup = Supervisor::new(&config, table, flags, 5).unwrap();
    assert_eq!(sup.handle_signal(SIGHUP), Dispatch::Swallow);
    assert_eq!(sup.handle_signal(SIGHUP), forward(-5, 15, false));
}

#[test]
fn no_flag_is_armed_without_a_detachment_by_the_session_leader() {
    let (config, _) = resolved(&["true"]);
    let (single, _) = resolved(&["-c", "true"]);
    let cases = [
        IgnoreFlags::none(),
        IgnoreFlags::after_detach(&config, false, Some(100), 100),
        IgnoreFlags::after_detach(&config, true, Some(1), 100),
        IgnoreFlags::after_detach(&config, true, None, 100),
        IgnoreFlags::after_detach(&single, true, Some(100), 100),
    ];
    for flags in cases {
        for signum in -1..70 {
            assert!(!flags.is_armed(signum));
        }
    }
}

#[test]
fn taking_a_flag_clears_it_alone() {
    let (config, _) = resolved(&["true"]);
    let mut flags = IgnoreFlags::after_detach(&config, true, Some(100), 100);
    assert!(!flags.consume(SIGTERM));
    assert!(flags.is_armed(SIGHUP) && flags.is_armed(SIGCONT));
    assert!(flags.consume(SIGHUP));
    assert!(!flags.is_armed(SIGHUP) && flags.is_armed(SIGCONT));
    assert!(!flags.consume(SIGHUP));
    assert!(flags.consume(SIGCONT));
    assert!(!flags.consume(SIGCONT));
    assert!(!flags.is_armed(SIGHUP) && !flags.is_armed(SIGCONT));
}
