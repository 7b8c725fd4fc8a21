//! Reaping: what each status of an exited descendant means for the
//! supervisor.

use vstd::prelude::*;
use crate::signal::SIGTERM;
use crate::supervisor::{forwarded, Delivery, Supervisor, SupervisorView};

verus! {

/// What a poll for the next exited descendant, made without blocking, gave.
#[derive(Clone, Copy, Debug, PartialEq, Eq, Structural)]
pub enum WaitStatus {
    /// No descendant has a status to collect.
    StillAlive,
    /// The process `pid` exited with `code`.
    Exited { pid: i32, code: i32 },
    /// The process `pid` was killed by `signal`, one of the seven-bit signal
    /// numbers that a wait status can hold.
    Signaled { pid: i32, signal: u8 },
    /// Some other change of state, such as a stop or a continue.
    Other,
    /// The poll failed.
    Failed,
}

/// What to do after a poll.
#[derive(Clone, Copy, Debug, PartialEq, Eq, Structural)]
pub enum Reaped {
    /// A descendant other than the tracked child was collected: poll again.
    Continue,
    /// Nothing is left to collect: back to waiting for signals.
    Done,
    /// The tracked child is gone. Make `cleanup`, if there is one, and leave
    /// with `code`, without polling again.
    Exit { code: i32, cleanup: Option<Delivery> },
}

/// The process that `status` reports as gone, and the exit code that its
/// end stands for: its own where it exited, 128 plus the signal where it was
/// killed. `None` for a status that reports no end.
pub open spec fn ended(status: WaitStatus) -> Option<(i32, i32)> {
    match status {
        WaitStatus::Exited { pid, code } => Some((pid, code)),
        WaitStatus::Signaled { pid, signal } => Some((pid, (128 + signal) as i32)),
        _ => None,
    }
}

/// What to do after a poll gave `status`. The end of the tracked child ends
/// the supervisor, with the child's exit code and after a terminate signal
/// for whatever is left of the child's group; the end of any other process
/// asks for another poll; anything else ends the pass.
pub open spec fn reaped(s: SupervisorView, status: WaitStatus) -> Reaped {
    match ended(status) {
        Some((pid, code)) => if pid == s.child {
            Reaped::Exit { code, cleanup: forwarded(s, SIGTERM) }
        } else {
            Reaped::Continue
        },
        None => Reaped::Done,
    }
}

impl Supervisor {
    /// Decides what to do after a poll for exited descendants gave `status`.
    pub fn reap(&self, status: WaitStatus) -> (next: Reaped)
        ensures
            next == reaped(self@, status),
    {
        let (pid, code) = match status {
            WaitStatus::Exited { pid, code } => (pid, code),
            WaitStatus::Signaled { pid, signal } => (pid, 128 + signal as i32),
            _ => { return Reaped::Done; },
        };
        if pid == self.child() {
            Reaped::Exit { code, cleanup: self.forward_signal(SIGTERM) }
        } else {
            Reaped::Continue
        }
    }
}

/// A reap pass over what the polls give, in order: how many polls it makes,
/// and the decision after the last of them. Where the polls run out before
/// the pass is over, that decision is `Continue`.
pub open spec fn pass(s: SupervisorView, polls: Seq<WaitStatus>) -> (nat, Reaped)
    decreases polls.len(),
{
    if polls.len() == 0 {
        (0, Reaped::Continue)
    } else {
        match reaped(s, polls[0]) {
            Reaped::Continue => {
                let rest = pass(s, polls.skip(1));
                (rest.0 + 1, rest.1)
            },
            decision => (1, decision),
        }
    }
}

/// Whether every one of `burst` reports the end of a process.
pub open spec fn all_ended(burst: Seq<WaitStatus>) -> bool {
    forall|i: int| 0 <= i < burst.len() ==> ended(#[trigger] burst[i]).is_some()
}

/// Whether `burst[k]` reports the end of the process `pid`.
pub open spec fn end_of(burst: Seq<WaitStatus>, k: int, pid: i32) -> bool {
    &&& 0 <= k < burst.len()
    &&& ended(burst[k]) matches Some(end)
    &&& end.0 == pid
}

/// Whether `burst[k]` is the first of `burst` to report the end of `pid`.
pub open spec fn first_end_of(burst: Seq<WaitStatus>, k: int, pid: i32) -> bool {
    &&& end_of(burst, k, pid)
    &&& forall|j: int| 0 <= j < k ==> !end_of(burst, j, pid)
}

/// A pass over statuses that all report ends of other processes takes every
/// one of them and asks for more.
proof fn lemma_pass_over_others(s: SupervisorView, burst: Seq<WaitStatus>)
    requires
        all_ended(burst),
        forall|j: int| 0 <= j < burst.len() ==> !end_of(burst, j, s.child),
    ensures
        pass(s, burst) == (burst.len(), Reaped::Continue),
    decreases burst.len(),
{
    if burst.len() > 0 {
        let rest = burst.skip(1);
        assert(!end_of(burst, 0, s.child));
        assert forall|j: int| 0 <= j < rest.len() implies ended(#[trigger] rest[j]).is_some()
            && !end_of(rest, j, s.child) by {
            assert(rest[j] == burst[j + 1]);
            assert(!end_of(burst, j + 1, s.child));
        }
        lemma_pass_over_others(s, rest);
    }
}

/// A pass over two runs of polls, the first of which only reports ends of
/// other processes, goes on into the second.
proof fn lemma_pass_continues(s: SupervisorView, others: Seq<WaitStatus>, rest: Seq<WaitStatus>)
    requires
        all_ended(others),
        forall|j: int| 0 <= j < others.len() ==> !end_of(others, j, s.child),
    ensures
        pass(s, others + rest) == (others.len() + pass(s, rest).0, pass(s, rest).1),
    decreases others.len(),
{
    if others.len() == 0 {
        assert(others + rest =~= rest);
    } else {
        let tail = others.skip(1);
        assert(!end_of(others, 0, s.child));
        assert((others + rest)[0] == others[0]);
        assert((others + rest).skip(1) =~= tail + rest);
        assert forall|j: int| 0 <= j < tail.len() implies ended(#[trigger] tail[j]).is_some()
            && !end_of(tail, j, s.child) by {
            assert(tail[j] == others[j + 1]);
            assert(!end_of(others, j + 1, s.child));
        }
        lemma_pass_continues(s, tail, rest);
    }
}

/// Burst reaping, where the tracked child is not among the dead: when
/// several descendants have exited before the supervisor polls, one pass
/// collects every one of them, finds nothing more, and goes back to waiting.
pub proof fn law_burst_without_child(s: SupervisorView, burst: Seq<WaitStatus>)
    requires
        all_ended(burst),
        forall|j: int| 0 <= j < burst.len() ==> !end_of(burst, j, s.child),
    ensures
        pass(s, burst.push(WaitStatus::StillAlive)) == (burst.len() + 1, Reaped::Done),
{
    let last = seq![WaitStatus::StillAlive];
    assert(burst.push(WaitStatus::StillAlive) =~= burst + last);
    lemma_pass_continues(s, burst, last);
    assert(pass(s, last.skip(1)) == (0nat, Reaped::Continue));
}

/// Burst reaping, where the tracked child is among the dead: the pass
/// collects whatever comes before the child's status, then ends the
/// supervisor with the child's exit code: its own where it exited, 128 plus
/// the signal where it was killed. Nothing is polled after that, so the
/// supervisor exits once, wherever in the burst the child's status stands.
pub proof fn law_burst_with_child(s: SupervisorView, burst: Seq<WaitStatus>, k: int)
    requires
        all_ended(burst),
        first_end_of(burst, k, s.child),
    ensures
        pass(s, burst.push(WaitStatus::StillAlive)) == (
            (k + 1) as nat,
            Reaped::Exit { code: ended(burst[k]).unwrap().1, cleanup: forwarded(s, SIGTERM) },
        ),
{
    let polls = burst.push(WaitStatus::StillAlive);
    let before = burst.take(k);
    let rest = polls.skip(k);
    assert(polls =~= before + rest);
    assert forall|j: int| 0 <= j < before.len() implies ended(#[trigger] before[j]).is_some()
        && !end_of(before, j, s.child) by {
        assert(before[j] == burst[j]);
        assert(!end_of(burst, j, s.child));
    }
    lemma_pass_continues(s, before, rest);
    assert(rest[0] == burst[k]);
}

/// The exit code does not depend on the order in which the statuses of a
/// burst come: two bursts that hold the same statuses, one of them the
/// tracked child's, end the supervisor with the same code.
pub proof fn law_burst_order(s: SupervisorView, burst: Seq<WaitStatus>, other: Seq<WaitStatus>)
    requires
        all_ended(burst),
        burst.to_multiset() == other.to_multiset(),
        exists|k: int| end_of(burst, k, s.child),
        forall|i: int, j: int|
            end_of(burst, i, s.child) && end_of(burst, j, s.child) ==> burst[i] == burst[j],
    ensures
        pass(s, burst.push(WaitStatus::StillAlive)).1 is Exit,
        pass(s, other.push(WaitStatus::StillAlive)).1 == pass(
            s,
            burst.push(WaitStatus::StillAlive),
        ).1,
{
    broadcast use vstd::seq_lib::group_to_multiset_ensures;

    let k = first_index(burst, s.child, burst.len() as int);
    law_burst_with_child(s, burst, k);
    assert forall|i: int| 0 <= i < other.len() implies ended(#[trigger] other[i]).is_some()
        && (end_of(other, i, s.child) ==> other[i] == burst[k]) by {
        assert(other.to_multiset().count(other[i]) > 0);
        assert(burst.to_multiset().count(other[i]) > 0);
        assert(burst.contains(other[i]));
        let j = choose|j: int| 0 <= j < burst.len() && burst[j] == other[i];
        if end_of(other, i, s.child) {
            assert(end_of(burst, j, s.child));
        }
    }
    assert(burst.to_multiset().count(burst[k]) > 0);
    assert(other.contains(burst[k]));
    let w = choose|w: int| 0 <= w < other.len() && other[w] == burst[k];
    assert(end_of(other, w, s.child));
    let m = first_index(other, s.child, other.len() as int);
    law_burst_with_child(s, other, m);
}

/// The least index below `bound` at which `burst` reports the end of `pid`,
/// given that there is one.
proof fn first_index(burst: Seq<WaitStatus>, pid: i32, bound: int) -> (k: int)
    requires
        0 <= bound <= burst.len(),
        exists|i: int| i < bound && end_of(burst, i, pid),
    ensures
        k < bound,
        first_end_of(burst, k, pid),
    decreases bound,
{
    if exists|i: int| i < bound - 1 && end_of(burst, i, pid) {
        first_index(burst, pid, bound - 1)
    } else {
        let i = choose|i: int| i < bound && end_of(burst, i, pid);
        assert(i == bound - 1);
        bound - 1
    }
}

} // verus!
