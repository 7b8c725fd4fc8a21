use dumb_init::config::{parse_command, Startup};
use dumb_init::ignore::IgnoreFlags;
use dumb_init::reaper::{Reaped, WaitStatus};
use dumb_init::supervisor::{Delivery, Supervisor};

fn tracking(list: &[&str], child: i32) -> Supervisor {
    let args: Vec<String> = list.iter().map(|s| s.to_string()).collect();
    match parse_command(&args, "", "") {
        Startup::Run { config, table } => {
            Supervisor::new(&config, table, IgnoreFlags::none(), child).unwrap()
        }
        other => panic!("{:?}", other),
    }
}

/// One pass of the reap loop over what the polls give: how many polls were
/// made, and the exit decision, if the pass ended in one.
fn pass(sup: &Supervisor, polls: &[WaitStatus]) -> (usize, Option<(i32, Option<Delivery>)>) {
    let mut made = 0;
    for status in polls {
        made += 1;
        match sup.reap(*status) {
            Reaped::Continue => {}
            Reaped::Done => return (made, None),
            Reaped::Exit { code, cleanup } => return (made, Some((code, cleanup))),
        }
    }
    panic!("the polls ran out");
}

#[test]
fn exit_code_of_the_child_becomes_the_exit_code() {
    let sup = tracking(&["true"], 42);
    assert_eq!(
        sup.reap(WaitStatus::Exited { pid: 42, code: 7 }),
        Reaped::Exit { code: 7, cleanup: Some(Delivery { target: -42, signal: 15 }) }
    );
    assert_eq!(
        sup.reap(WaitStatus::Exited { pid: 42, code: 0 }),
        Reaped::Exit { code: 0, cleanup: Some(Delivery { target: -42, signal: 15 }) }
    );
    assert_eq!(
        sup.reap(WaitStatus::Exited { pid: 42, code: 255 }),
        Reaped::Exit { code: 255, cleanup: Some(Delivery { target: -42, signal: 15 }) }
    );
}

#[test]
fn a_killed_child_gives_128_plus_the_signal() {
    let sup = tracking(&["true"], 42);
    assert_eq!(
        sup.reap(WaitStatus::Signaled { pid: 42, signal: 9 }),
        Reaped::Exit { code: 137, cleanup: Some(Delivery { target: -42, signal: 15 }) }
    );
    assert_eq!(
        sup.reap(WaitStatus::Signaled { pid: 42, signal: 15 }),
        Reaped::Exit { code: 143, cleanup: Some(Delivery { target: -42, signal: 15 }) }
    );
    assert_eq!(
        sup.reap(WaitStatus::Signaled { pid: 42, signal: 255 }),
        Reaped::Exit { code: 383, cleanup: Some(Delivery { target: -42, signal: 15 }) }
    );
}

#[test]
fn other_descendants_are_collected_without_effect() {
    let sup = tracking(&["true"], 42);
    assert_eq!(sup.reap(WaitStatus::Exited { pid: 43, code: 7 }), Reaped::Continue);
    assert_eq!(sup.reap(WaitStatus::Signaled { pid: 1000, signal: 9 }), Reaped::Continue);
    assert_eq!(sup.reap(WaitStatus::Exited { pid: -42, code: 1 }), Reaped::Continue);
}

#[test]
fn anything_else_ends_the_pass() {
    let sup = tracking(&["true"], 42);
    assert_eq!(sup.reap(WaitStatus::StillAlive), Reaped::Done);
    assert_eq!(sup.reap(WaitStatus::Other), Reaped::Done);
    assert_eq!(sup.reap(WaitStatus::Failed), Reaped::Done);
}

#[test]
fn cleanup_goes_to_the_child_alone_in_single_child_mode() {
    let sup = tracking(&["-c", "true"], 42);
    assert_eq!(
        sup.reap(WaitStatus::Exited { pid: 42, code: 3 }),
        Reaped::Exit { code: 3, cleanup: Some(Delivery { target: 42, signal: 15 }) }
    );
}

#[test]
fn cleanup_follows_the_rewrite_table() {
    let sup = tracking(&["-r", "15:9", "true"], 42);
    assert_eq!(
        sup.reap(WaitStatus::Exited { pid: 42, code: 3 }),
        Reaped::Exit { code: 3, cleanup: Some(Delivery { target: -42, signal: 9 }) }
    );
    let sup = tracking(&["-r", "15:0", "true"], 42);
    assert_eq!(
        sup.reap(WaitStatus::Signaled { pid: 42, signal: 2 }),
        Reaped::Exit { code: 130, cleanup: None }
    );
}

#[test]
fn a_burst_without_the_child_is_drained_in_one_pass() {
    let sup = tracking(&["true"], 42);
    let polls = [
        WaitStatus::Exited { pid: 50, code: 0 },
        WaitStatus::Signaled { pid: 51, signal: 9 },
        WaitStatus::Exited { pid: 52, code: 1 },
        WaitStatus::StillAlive,
    ];
    assert_eq!(pass(&sup, &polls), (4, None));
    assert_eq!(pass(&sup, &[WaitStatus::StillAlive]), (1, None));
}

#[test]
fn a_burst_with_the_child_exits_once_whatever_the_order() {
    let sup = tracking(&["true"], 42);
    let child = WaitStatus::Signaled { pid: 42, signal: 9 };
    let a = WaitStatus::Exited { pid: 50, code: 0 };
    let b = WaitStatus::Signaled { pid: 51, signal: 15 };
    let cleanup = Some(Delivery { target: -42, signal: 15 });
    let orders = [[child, a, b], [a, child, b], [a, b, child], [b, a, child], [b, child, a], [child, b, a]];
    for order in orders {
        let position = order.iter().position(|s| *s == child).unwrap();
        let polls = [order[0], order[1], order[2], WaitStatus::StillAlive];
        assert_eq!(pass(&sup, &polls), (position + 1, Some((137, cleanup))));
    }
}
