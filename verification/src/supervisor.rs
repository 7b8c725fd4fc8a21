//! The dispatch of received signals: swallow, reap, or forward to the child.

use vstd::prelude::*;
use crate::config::Config;
use crate::ignore::IgnoreFlags;
use crate::rewrite::{translation, RewriteSignal, RewriteTable};
use crate::signal::{is_job_control, job_control, rewritable, SIGCHLD};

verus! {

/// A signal to deliver. `target` is a process id, or the negative of one for
/// the whole process group that the process leads.
#[derive(Clone, Copy, Debug, PartialEq, Eq, Structural)]
pub struct Delivery {
    pub target: i32,
    pub signal: i32,
}

/// What to do about a received signal.
#[derive(Clone, Copy, Debug, PartialEq, Eq, Structural)]
pub enum Dispatch {
    /// Nothing: the signal followed the detachment from the terminal and was
    /// swallowed.
    Swallow,
    /// A child changed state: reap.
    Reap,
    /// Make `delivery`, if there is one, failure or not; then, if `suspend`
    /// is set, send the uncatchable stop to the supervisor itself.
    Forward { delivery: Option<Delivery>, suspend: bool },
}

/// The supervisor of one tracked child.
#[derive(Debug)]
pub struct Supervisor {
    process_group: bool,
    debug: bool,
    table: RewriteTable,
    ignores: IgnoreFlags,
    child: i32,
}

/// A supervisor as plain values.
pub struct SupervisorView {
    /// Whether signals go to the child's whole process group.
    pub process_group: bool,
    /// Whether the supervisor reports what it does.
    pub debug: bool,
    /// The rewrite table.
    pub table: Map<int, RewriteSignal>,
    /// The signals whose next occurrence is swallowed.
    pub armed: Set<int>,
    /// The process id of the tracked child.
    pub child: i32,
}

impl View for Supervisor {
    type V = SupervisorView;

    closed spec fn view(&self) -> SupervisorView {
        SupervisorView {
            process_group: self.process_group,
            debug: self.debug,
            table: self.table@,
            armed: self.ignores@,
            child: self.child,
        }
    }
}

/// Where signals for the child go: to its process group, written as the
/// negative of its process id, in process-group mode; else to the child alone.
pub open spec fn target_of(s: SupervisorView) -> int {
    if s.process_group {
        -(s.child as int)
    } else {
        s.child as int
    }
}

/// The delivery that forwards `signum`: none where the rewrite table drops
/// the signal, else what the table makes of it, sent to the child or its
/// group.
pub open spec fn forwarded(s: SupervisorView, signum: i32) -> Option<Delivery> {
    match translation(s.table, signum) {
        Some(signal) => Some(Delivery { target: target_of(s) as i32, signal }),
        None => None,
    }
}

/// The supervisor after it received `signum`: the flag of that signal is
/// cleared, and nothing else has changed.
pub open spec fn after_signal(s: SupervisorView, signum: i32) -> SupervisorView {
    SupervisorView { armed: s.armed.remove(signum as int), ..s }
}

/// What to do about `signum`. An armed signal is swallowed, whatever it is.
/// Else a child-status signal asks for a reap. Any other signal is
/// forwarded, and a job-control stop suspends the supervisor as well,
/// forwarded or dropped.
pub open spec fn dispatched(s: SupervisorView, signum: i32) -> Dispatch {
    if s.armed.contains(signum as int) {
        Dispatch::Swallow
    } else if signum == SIGCHLD {
        Dispatch::Reap
    } else {
        Dispatch::Forward { delivery: forwarded(s, signum), suspend: job_control(signum as int) }
    }
}

impl Supervisor {
    #[verifier::type_invariant]
    spec fn inv(self) -> bool {
        self.child > 0
    }

    /// The supervisor of the child `child`, with the rewrite table and the
    /// flags that were set up before the child was started. `None` where
    /// `child` is no process id, that is, not positive.
    pub fn new(config: &Config, table: RewriteTable, ignores: IgnoreFlags, child: i32) -> (made:
        Option<Supervisor>)
        ensures
            made.is_some() == (child > 0),
            made matches Some(s) ==> s@ == (SupervisorView {
                process_group: config@.process_group,
                debug: config@.debug,
                table: table@,
                armed: ignores@,
                child,
            }),
    {
        if child > 0 {
            Some(
                Supervisor {
                    process_group: config.process_group(),
                    debug: config.debug(),
                    table,
                    ignores,
                    child,
                },
            )
        } else {
            None
        }
    }

    /// Translates a received signal by the rewrite table: `None` when it is
    /// to be dropped, else the signal to send.
    pub fn translate_signal(&self, signum: i32) -> (sent: Option<i32>)
        ensures
            sent == translation(self@.table, signum),
            !rewritable(signum as int) ==> sent == Some(signum),
            sent matches Some(s) ==> s == signum || rewritable(s as int),
    {
        self.table.translate(signum)
    }

    /// The delivery that forwards `signum` to the child, or to its process
    /// group in process-group mode; `None` where the signal is dropped.
    pub fn forward_signal(&self, signum: i32) -> (delivery: Option<Delivery>)
        ensures
            delivery == forwarded(self@, signum),
            self@.child > 0,
    {
        proof {
            use_type_invariant(self);
        }
        match self.translate_signal(signum) {
            Some(signal) => {
                let target = if self.process_group {
                    -self.child
                } else {
                    self.child
                };
                Some(Delivery { target, signal })
            },
            None => None,
        }
    }

    /// Decides what to do about the received signal `signum`, and clears its
    /// one-shot flag.
    pub fn handle_signal(&mut self, signum: i32) -> (todo: Dispatch)
        ensures
            todo == dispatched(old(self)@, signum),
            final(self)@ == after_signal(old(self)@, signum),
    {
        proof {
            use_type_invariant(&*self);
        }
        if self.ignores.consume(signum) {
            Dispatch::Swallow
        } else if signum == SIGCHLD {
            Dispatch::Reap
        } else {
            let delivery = self.forward_signal(signum);
            Dispatch::Forward { delivery, suspend: is_job_control(signum) }
        }
    }

    /// The process id of the tracked child; it is positive.
    pub fn child(&self) -> (pid: i32)
        ensures
            pid == self@.child,
            pid > 0,
    {
        proof {
            use_type_invariant(self);
        }
        self.child
    }

    /// Whether signals go to the child's whole process group.
    pub fn process_group(&self) -> (yes: bool)
        ensures
            yes == self@.process_group,
    {
        self.process_group
    }

    /// Whether the supervisor reports what it does.
    pub fn debug(&self) -> (yes: bool)
        ensures
            yes == self@.debug,
    {
        self.debug
    }
}

/// A signal outside 1..=31 is forwarded as it is, whatever the rewrite table
/// holds.
pub proof fn law_out_of_range_passes(table: Map<int, RewriteSignal>, signum: i32)
    requires
        !rewritable(signum as int),
    ensures
        translation(table, signum) == Some(signum),
{
}

/// The first occurrence of an armed signal is swallowed and clears the flag
/// of that signal alone. The next occurrence of the same signal is handled as
/// if the flag had never been armed.
pub proof fn law_one_shot(s: SupervisorView, signum: i32)
    requires
        s.armed.contains(signum as int),
    ensures
        dispatched(s, signum) == Dispatch::Swallow,
        !after_signal(s, signum).armed.contains(signum as int),
        forall|other: int|
            other != signum ==> after_signal(s, signum).armed.contains(other) == s.armed.contains(
                other,
            ),
        dispatched(after_signal(s, signum), signum) != Dispatch::Swallow,
        dispatched(after_signal(s, signum), signum) == dispatched(
            SupervisorView { armed: Set::empty(), ..s },
            signum,
        ),
        after_signal(after_signal(s, signum), signum) == after_signal(s, signum),
{
    assert(after_signal(s, signum).armed.remove(signum as int) =~= after_signal(s, signum).armed);
}

/// A signal that is not armed leaves the supervisor as it was.
pub proof fn law_unarmed_keeps_state(s: SupervisorView, signum: i32)
    requires
        !s.armed.contains(signum as int),
    ensures
        after_signal(s, signum) == s,
        dispatched(s, signum) != Dispatch::Swallow,
{
    assert(s.armed.remove(signum as int) =~= s.armed);
}

/// Outside process-group mode every delivery goes to the tracked child's own
/// process id; in process-group mode every delivery goes to the negative of
/// it, which addresses the child's group.
pub proof fn law_delivery_target(s: SupervisorView, signum: i32)
    requires
        s.child > 0,
    ensures
        forwarded(s, signum) matches Some(d) ==> d.target == (if s.process_group {
            -s.child
        } else {
            s.child as int
        }),
        forwarded(s, signum).is_some() == translation(s.table, signum).is_some(),
{
}

} // verus!
