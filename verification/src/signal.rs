//! Signal numbers, in the numbering that Linux uses on its common
//! architectures.

use vstd::prelude::*;

verus! {

/// The highest signal number that can be rewritten; numbers above it are
/// real-time signals.
pub const MAXSIG: i32 = 31;

/// Hang-up: sent when the controlling terminal goes away.
pub const SIGHUP: i32 = 1;

/// The polite request to terminate.
pub const SIGTERM: i32 = 15;

/// A child stopped or terminated.
pub const SIGCHLD: i32 = 17;

/// Resume after a stop.
pub const SIGCONT: i32 = 18;

/// The stop that cannot be caught, blocked or ignored.
pub const SIGSTOP: i32 = 19;

/// Stop typed at the terminal.
pub const SIGTSTP: i32 = 20;

/// A background process tried to read from the terminal.
pub const SIGTTIN: i32 = 21;

/// A background process tried to write to the terminal.
pub const SIGTTOU: i32 = 22;

/// Whether `signum` is one of the signals that a rewrite table has a slot for.
pub open spec fn rewritable(signum: int) -> bool {
    1 <= signum <= MAXSIG
}

/// Whether `signum` is one of the three stop signals of terminal job control.
pub open spec fn job_control(signum: int) -> bool {
    signum == SIGTSTP || signum == SIGTTOU || signum == SIGTTIN
}

/// Tells whether `signum` is one of the three stop signals of terminal job
/// control.
pub fn is_job_control(signum: i32) -> (yes: bool)
    ensures
        yes == job_control(signum as int),
{
    signum == SIGTSTP || signum == SIGTTOU || signum == SIGTTIN
}

} // verus!
