//! What can go wrong while the command is started, and what each failure
//! means: some end the process in which they happen, the others are only
//! worth a remark.

use vstd::prelude::*;
use vstd::string::StringExecFns;
use crate::config::Config;

verus! {

/// One step of the start-up.
#[derive(Clone, Copy, Debug, PartialEq, Eq, Structural)]
pub enum Step {
    /// Block every signal, so that none is lost or handled before the
    /// supervisor waits for it.
    BlockSignals,
    /// Give each signal from 1 to 31 a handler that does nothing, so that it
    /// can be waited for.
    InstallHandlers,
    /// Give up the controlling terminal.
    DetachTerminal,
    /// Make the child process.
    Fork,
    /// Let signals through again.
    UnblockSignals,
    /// Start a session.
    NewSession,
    /// Take the controlling terminal.
    ClaimTerminal,
    /// Turn into the command.
    Exec,
    /// Change to the root directory, so that no other directory is kept busy.
    ChangeDirectory,
    /// Wait for signals and dispatch them, for good.
    Dispatch,
}

/// What the supervisor does up to the fork: it blocks the signals first, and
/// gives up the terminal only in process-group mode.
pub open spec fn preparation(process_group: bool) -> Seq<Step> {
    if process_group {
        seq![Step::BlockSignals, Step::InstallHandlers, Step::DetachTerminal, Step::Fork]
    } else {
        seq![Step::BlockSignals, Step::InstallHandlers, Step::Fork]
    }
}

/// What the child does after the fork: it gets a session and the terminal
/// only in process-group mode, and turns into the command last.
pub open spec fn child_steps(process_group: bool) -> Seq<Step> {
    if process_group {
        seq![Step::UnblockSignals, Step::NewSession, Step::ClaimTerminal, Step::Exec]
    } else {
        seq![Step::UnblockSignals, Step::Exec]
    }
}

/// What the supervisor does after the fork, once it tracks the child.
pub open spec fn parent_steps() -> Seq<Step> {
    seq![Step::ChangeDirectory, Step::Dispatch]
}

/// The failure that a refused step stands for; `None` for a step whose
/// outcome is not looked at.
pub open spec fn failure_of(step: Step) -> Option<LaunchFailure> {
    match step {
        Step::DetachTerminal => Some(LaunchFailure::Detach),
        Step::Fork => Some(LaunchFailure::Fork),
        Step::NewSession => Some(LaunchFailure::NewSession),
        Step::ClaimTerminal => Some(LaunchFailure::ClaimTerminal),
        Step::Exec => Some(LaunchFailure::Exec),
        Step::ChangeDirectory => Some(LaunchFailure::ChangeDirectory),
        _ => None,
    }
}

impl Step {
    /// The failure that this step stands for when the system refuses it;
    /// `None` for a step whose outcome is not looked at.
    pub fn failure(&self) -> (failure: Option<LaunchFailure>)
        ensures
            failure == failure_of(*self),
    {
        match self {
            Step::DetachTerminal => Some(LaunchFailure::Detach),
            Step::Fork => Some(LaunchFailure::Fork),
            Step::NewSession => Some(LaunchFailure::NewSession),
            Step::ClaimTerminal => Some(LaunchFailure::ClaimTerminal),
            Step::Exec => Some(LaunchFailure::Exec),
            Step::ChangeDirectory => Some(LaunchFailure::ChangeDirectory),
            _ => None,
        }
    }
}

/// The steps of the supervisor up to the fork, in order.
pub fn steps_before_fork(config: &Config) -> (steps: Vec<Step>)
    ensures
        steps@ == preparation(config@.process_group),
{
    let mut steps: Vec<Step> = Vec::new();
    steps.push(Step::BlockSignals);
    steps.push(Step::InstallHandlers);
    if config.process_group() {
        steps.push(Step::DetachTerminal);
    }
    steps.push(Step::Fork);
    assert(steps@ =~= preparation(config@.process_group));
    steps
}

/// The steps of the child, in order.
pub fn steps_in_child(config: &Config) -> (steps: Vec<Step>)
    ensures
        steps@ == child_steps(config@.process_group),
{
    let mut steps: Vec<Step> = Vec::new();
    steps.push(Step::UnblockSignals);
    if config.process_group() {
        steps.push(Step::NewSession);
        steps.push(Step::ClaimTerminal);
    }
    steps.push(Step::Exec);
    assert(steps@ =~= child_steps(config@.process_group));
    steps
}

/// The steps of the supervisor after the fork, in order.
pub fn steps_in_parent() -> (steps: Vec<Step>)
    ensures
        steps@ == parent_steps(),
{
    let mut steps: Vec<Step> = Vec::new();
    steps.push(Step::ChangeDirectory);
    steps.push(Step::Dispatch);
    assert(steps@ =~= parent_steps());
    steps
}

/// The order of the start-up: the supervisor blocks the signals before
/// anything else, and so before the fork, which comes last; the child lets
/// them through again first and turns into the command last. The terminal
/// and the session are touched in process-group mode only.
pub proof fn law_start_up_order(process_group: bool)
    ensures
        preparation(process_group).first() == Step::BlockSignals,
        preparation(process_group).last() == Step::Fork,
        child_steps(process_group).first() == Step::UnblockSignals,
        child_steps(process_group).last() == Step::Exec,
        parent_steps().last() == Step::Dispatch,
        preparation(process_group).contains(Step::DetachTerminal) == process_group,
        child_steps(process_group).contains(Step::NewSession) == process_group,
        child_steps(process_group).contains(Step::ClaimTerminal) == process_group,
{
    let before = preparation(process_group);
    let child = child_steps(process_group);
    if process_group {
        assert(before[2] == Step::DetachTerminal);
        assert(child[1] == Step::NewSession);
        assert(child[2] == Step::ClaimTerminal);
    }
}

/// A step of the start-up that the system refused.
#[derive(Clone, Copy, Debug, PartialEq, Eq, Structural)]
pub enum LaunchFailure {
    /// The supervisor could not give up its controlling terminal.
    Detach,
    /// No child process could be made.
    Fork,
    /// The child could not get a session of its own.
    NewSession,
    /// The child could not take the controlling terminal.
    ClaimTerminal,
    /// The child could not turn into the command.
    Exec,
    /// The supervisor could not change to the root directory.
    ChangeDirectory,
}

/// The exit code with which the failing process leaves, or `None` where it
/// goes on: 1 where no child or no session could be made, 2 where the
/// command could not be started, so that this can be told apart; the
/// failures about the terminal and the working directory end nothing.
pub open spec fn fatal_exit_code(failure: LaunchFailure) -> Option<i32> {
    match failure {
        LaunchFailure::Fork => Some(1),
        LaunchFailure::NewSession => Some(1),
        LaunchFailure::Exec => Some(2),
        LaunchFailure::Detach => None,
        LaunchFailure::ClaimTerminal => None,
        LaunchFailure::ChangeDirectory => None,
    }
}

impl LaunchFailure {
    /// The exit code with which the failing process leaves; `None` where the
    /// failure is not fatal and the process goes on.
    pub fn exit_code(&self) -> (code: Option<i32>)
        ensures
            code == fatal_exit_code(*self),
    {
        match self {
            LaunchFailure::Fork => Some(1),
            LaunchFailure::NewSession => Some(1),
            LaunchFailure::Exec => Some(2),
            LaunchFailure::Detach => None,
            LaunchFailure::ClaimTerminal => None,
            LaunchFailure::ChangeDirectory => None,
        }
    }
}

/// What is reported when the command could not be started: the command, a
/// colon and a blank, and the reason that the system gave.
pub open spec fn exec_failure_text(command: Seq<char>, reason: Seq<char>) -> Seq<char> {
    command + seq![':', ' '] + reason
}

/// The report that the command `command` could not be started for `reason`.
pub fn exec_failure_message(command: &str, reason: &str) -> (message: String)
    ensures
        message@ == exec_failure_text(command@, reason@),
{
    proof {
        reveal_strlit(": ");
    }
    let mut message = String::from_str(command);
    message.append(": ");
    message.append(reason);
    assert(": "@ =~= seq![':', ' ']);
    message
}

} // verus!
