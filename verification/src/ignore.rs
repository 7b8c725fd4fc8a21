//! One-shot ignore flags for the two signals that the kernel sends to a
//! session leader when it gives up its controlling terminal.

use vstd::prelude::*;
use crate::config::Config;
use crate::signal::{SIGCONT, SIGHUP};

verus! {

/// The armed flags. The view is the set of signals whose next occurrence is
/// to be swallowed; only the hang-up and the continue signal are ever in it.
#[derive(Clone, Copy, Debug)]
pub struct IgnoreFlags {
    hup: bool,
    cont: bool,
}

/// The two signals that follow a detachment.
pub open spec fn hand_off_signals() -> Set<int> {
    set![SIGHUP as int, SIGCONT as int]
}

impl View for IgnoreFlags {
    type V = Set<int>;

    closed spec fn view(&self) -> Set<int> {
        Set::new(|s: int| (s == SIGHUP && self.hup) || (s == SIGCONT && self.cont))
    }
}

/// The flags to start with: both armed where the supervisor is in
/// process-group mode, has detached from its controlling terminal and leads
/// its session (`session`, its session id, is then its own `pid`); none
/// otherwise. `session` is `None` where the session id could not be had.
pub open spec fn flags_after_detach(
    process_group: bool,
    detached: bool,
    session: Option<i32>,
    pid: i32,
) -> Set<int> {
    if process_group && detached && session == Some(pid) {
        hand_off_signals()
    } else {
        Set::empty()
    }
}

impl IgnoreFlags {
    /// No flag is armed.
    pub fn none() -> (flags: IgnoreFlags)
        ensures
            flags@ == Set::<int>::empty(),
    {
        let flags = IgnoreFlags { hup: false, cont: false };
        assert(flags@ =~= Set::<int>::empty());
        flags
    }

    /// The flags with which the supervisor starts, once it has tried to give
    /// up its controlling terminal. `detached` says whether that succeeded,
    /// `session` is the supervisor's session id (`None` where it could not be
    /// had) and `pid` its process id.
    pub fn after_detach(config: &Config, detached: bool, session: Option<i32>, pid: i32) -> (flags:
        IgnoreFlags)
        ensures
            flags@ == flags_after_detach(config@.process_group, detached, session, pid),
    {
        let leader = match session {
            Some(sid) => sid == pid,
            None => false,
        };
        let armed = config.process_group() && detached && leader;
        let flags = IgnoreFlags { hup: armed, cont: armed };
        assert(flags@ =~= flags_after_detach(config@.process_group, detached, session, pid));
        flags
    }

    /// Whether the next occurrence of `signum` is to be swallowed.
    pub fn is_armed(&self, signum: i32) -> (armed: bool)
        ensures
            armed == self@.contains(signum as int),
    {
        (signum == SIGHUP && self.hup) || (signum == SIGCONT && self.cont)
    }

    /// Takes the flag of `signum`: tells whether it was armed, and leaves it
    /// cleared. No other flag changes.
    pub fn consume(&mut self, signum: i32) -> (armed: bool)
        ensures
            armed == old(self)@.contains(signum as int),
            final(self)@ == old(self)@.remove(signum as int),
        no_unwind
    {
        let armed = (signum == SIGHUP && self.hup) || (signum == SIGCONT && self.cont);
        if signum == SIGHUP {
            self.hup = false;
        }
        if signum == SIGCONT {
            self.cont = false;
        }
        assert(self@ =~= old(self)@.remove(signum as int));
        armed
    }
}

/// Only the hang-up and the continue signal are ever armed.
pub proof fn law_only_hand_off_signals(flags: IgnoreFlags)
    ensures
        flags@.subset_of(hand_off_signals()),
{
}

} // verus!
