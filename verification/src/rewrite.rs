//! The signal translation table: for each signal from 1 to 31 either nothing
//! (the signal passes through), a drop, or another signal to send in its place.

use vstd::prelude::*;
use crate::rule::{parse_rule, rule_of_text, RewriteRule};
use crate::signal::{rewritable, MAXSIG, SIGSTOP, SIGTSTP, SIGTTIN, SIGTTOU};

verus! {

/// What the table holds for a signal that has an entry.
#[derive(Clone, Copy, Debug, PartialEq, Eq, Structural)]
pub enum RewriteSignal {
    /// The signal is swallowed.
    Drop,
    /// This signal is sent instead.
    Rewrite(i32),
}

/// The entry that a replacement number stands for: zero drops the signal, any
/// other number replaces it.
pub open spec fn entry_for(replacement: i32) -> RewriteSignal {
    if replacement == 0 {
        RewriteSignal::Drop
    } else {
        RewriteSignal::Rewrite(replacement)
    }
}

/// What is sent for `signum` under the entries `table`: `None` when the signal
/// is dropped, the replacement when there is one, and `signum` itself when it
/// has no entry or lies outside 1..=31.
pub open spec fn translation(table: Map<int, RewriteSignal>, signum: i32) -> Option<i32> {
    if !rewritable(signum as int) || !table.dom().contains(signum as int) {
        Some(signum)
    } else {
        match table[signum as int] {
            RewriteSignal::Drop => None,
            RewriteSignal::Rewrite(target) => Some(target),
        }
    }
}

/// The rewrite table. Its view maps each signal that has an entry to that
/// entry.
#[derive(Debug)]
pub struct RewriteTable {
    entries: Vec<Option<RewriteSignal>>,
}

impl View for RewriteTable {
    type V = Map<int, RewriteSignal>;

    closed spec fn view(&self) -> Map<int, RewriteSignal> {
        Map::new(
            |s: int| 1 <= s <= self.entries.len() && s <= MAXSIG && self.entries[s - 1].is_some(),
            |s: int| self.entries[s - 1].unwrap(),
        )
    }
}

impl RewriteTable {
    #[verifier::type_invariant]
    spec fn inv(self) -> bool {
        &&& self.entries.len() == MAXSIG
        &&& forall|i: int|
            0 <= i < self.entries.len() ==> (#[trigger] self.entries[i] matches Some(
                RewriteSignal::Rewrite(t),
            ) ==> rewritable(t as int))
    }

    /// A table without entries: every signal passes through.
    pub fn new() -> (table: RewriteTable)
        ensures
            table@ == Map::<int, RewriteSignal>::empty(),
    {
        let mut entries: Vec<Option<RewriteSignal>> = Vec::new();
        let mut i: i32 = 0;
        while i < MAXSIG
            invariant
                0 <= i <= MAXSIG,
                entries.len() == i,
                forall|j: int| 0 <= j < i ==> entries[j].is_none(),
            decreases MAXSIG - i,
        {
            entries.push(None);
            i = i + 1;
        }
        let table = RewriteTable { entries };
        assert(table@ =~= Map::<int, RewriteSignal>::empty());
        table
    }

    /// The entry of `signum`, if it has one.
    pub fn get(&self, signum: i32) -> (entry: Option<RewriteSignal>)
        ensures
            entry == if self@.dom().contains(signum as int) {
                Some(self@[signum as int])
            } else {
                None
            },
            entry matches Some(RewriteSignal::Rewrite(target)) ==> rewritable(target as int),
    {
        proof {
            use_type_invariant(self);
        }
        if 1 <= signum && signum <= MAXSIG {
            self.entries[(signum - 1) as usize]
        } else {
            None
        }
    }

    /// Translates a received signal: `None` when it is to be dropped, else the
    /// signal to send.
    pub fn translate(&self, signum: i32) -> (sent: Option<i32>)
        ensures
            sent == translation(self@, signum),
            !rewritable(signum as int) ==> sent == Some(signum),
            sent matches Some(s) ==> s == signum || rewritable(s as int),
    {
        match self.get(signum) {
            None => Some(signum),
            Some(RewriteSignal::Drop) => None,
            Some(RewriteSignal::Rewrite(target)) => Some(target),
        }
    }

    /// Records that `signum` is to be replaced by `replacement`, or dropped
    /// when `replacement` is 0. Refuses, and changes nothing, unless `signum`
    /// is in 1..=31 and `replacement` in 0..=31. A later entry for the same
    /// signal replaces an earlier one.
    pub fn set(&mut self, signum: i32, replacement: i32) -> (accepted: bool)
        ensures
            accepted == (rewritable(signum as int) && 0 <= replacement <= MAXSIG),
            accepted ==> final(self)@ == old(self)@.insert(signum as int, entry_for(replacement)),
            !accepted ==> final(self)@ == old(self)@,
    {
        proof {
            use_type_invariant(&*self);
        }
        if 1 <= signum && signum <= MAXSIG && 0 <= replacement && replacement <= MAXSIG {
            let entry = if replacement == 0 {
                RewriteSignal::Drop
            } else {
                RewriteSignal::Rewrite(replacement)
            };
            store(&mut self.entries, (signum - 1) as usize, entry);
            assert(self@ =~= old(self)@.insert(signum as int, entry_for(replacement)));
            true
        } else {
            false
        }
    }

    /// Reads the rule that `arg` writes and records it. Refuses, and changes
    /// nothing, where `arg` writes no rule.
    pub fn parse_rewrite_signum(&mut self, arg: &str) -> (accepted: bool)
        ensures
            accepted == rule_of_text(arg@).is_some(),
            final(self)@ == with_rule(old(self)@, rule_of_text(arg@)),
    {
        match parse_rule(arg) {
            Some(rule) => self.set(rule.signum, rule.replacement),
            None => false,
        }
    }

    /// Gives `signum` the entry "replace by the uncatchable stop" unless it
    /// already has an entry. Does nothing for a signal outside 1..=31.
    pub fn set_rewrite_to_sigstop_if_not_defined(&mut self, signum: i32)
        ensures
            final(self)@ == with_default_stop(old(self)@, signum as int),
    {
        proof {
            use_type_invariant(&*self);
        }
        if 1 <= signum && signum <= MAXSIG {
            let idx = (signum - 1) as usize;
            if self.entries[idx].is_none() {
                store(&mut self.entries, idx, RewriteSignal::Rewrite(SIGSTOP));
            }
        }
        assert(self@ =~= with_default_stop(old(self)@, signum as int));
    }

    /// Gives each of the three job-control stop signals the entry "replace by
    /// the uncatchable stop", unless the signal already has an entry.
    pub fn stop_on_job_control(&mut self)
        ensures
            final(self)@ == with_job_control_defaults(old(self)@),
    {
        self.set_rewrite_to_sigstop_if_not_defined(SIGTSTP);
        self.set_rewrite_to_sigstop_if_not_defined(SIGTTOU);
        self.set_rewrite_to_sigstop_if_not_defined(SIGTTIN);
    }
}

/// `table` after `rule` was recorded; `table` itself where there is no rule.
pub open spec fn with_rule(table: Map<int, RewriteSignal>, rule: Option<RewriteRule>) -> Map<
    int,
    RewriteSignal,
> {
    match rule {
        Some(r) => table.insert(r.signum as int, entry_for(r.replacement)),
        None => table,
    }
}

/// Puts `entry` into the slot `idx`.
fn store(entries: &mut Vec<Option<RewriteSignal>>, idx: usize, entry: RewriteSignal)
    requires
        idx < old(entries).len(),
    ensures
        final(entries)@ == old(entries)@.update(idx as int, Some(entry)),
    no_unwind
{
    entries[idx] = Some(entry);
}

/// `table` with the entry "replace by the uncatchable stop" for `signum`,
/// where `signum` is in 1..=31 and had no entry; else `table` itself.
pub open spec fn with_default_stop(table: Map<int, RewriteSignal>, signum: int) -> Map<
    int,
    RewriteSignal,
> {
    if rewritable(signum) && !table.dom().contains(signum) {
        table.insert(signum, RewriteSignal::Rewrite(SIGSTOP))
    } else {
        table
    }
}

/// `table` after the three job-control stop signals got their default entry.
pub open spec fn with_job_control_defaults(table: Map<int, RewriteSignal>) -> Map<
    int,
    RewriteSignal,
> {
    with_default_stop(
        with_default_stop(with_default_stop(table, SIGTSTP as int), SIGTTOU as int),
        SIGTTIN as int,
    )
}

} // verus!
