//! Launching external programs: fork, replace the image, optionally wait.

use vstd::prelude::*;
use crate::error::Error;
use crate::wait::{
    reply_diagnostic, wait_for_child, wait_pid_no_interrupt, wait_progress, WaitDiagnostic,
    WaitProgress, WaitReply, WaitRequest, WaitStatus,
};

verus! {

/// The exit code of a child whose image could not be replaced.
pub const EXIT_FAILURE: i32 = 1;

/// An external program with its arguments, the program's path first.
#[derive(Clone, Debug, PartialEq, Eq)]
pub struct Command {
    /// The argument vector.
    pub argv: Vec<&'static str>,
}

/// The texts of an argument vector.
pub open spec fn texts(argv: Seq<&'static str>) -> Seq<Seq<char>> {
    Seq::new(argv.len(), |i: int| argv[i]@)
}

impl View for Command {
    type V = Seq<Seq<char>>;

    open spec fn view(&self) -> Seq<Seq<char>> {
        texts(self.argv@)
    }
}

/// The side of a fork on which the caller finds itself.
#[derive(Clone, Copy, Debug, PartialEq, Eq, Structural)]
pub enum ForkResult {
    /// The caller is the new child.
    Child,
    /// The caller is the parent of the child with this identifier.
    Parent { child: i32 },
}

/// The reply of a fork: a side, or the raw `errno` of the failure.
pub type ForkReply = Result<ForkResult, i32>;

/// Where the launch of a command stands.
#[derive(Clone, Copy, Debug, PartialEq, Eq)]
pub enum ExecProgress {
    /// Create the child process.
    Fork,
    /// In the child: replace the process image with this program, handing
    /// it the command's whole argument vector.
    ReplaceImage { program: &'static str },
    /// In the child: the image could not be replaced; terminate at once
    /// with this code, without running any of the parent's logic.
    ExitChild(i32),
    /// In the parent: issue this wait call.
    Wait(WaitRequest),
    /// In the parent: the launch is over.
    Returned {
        /// The outcome handed to the caller.
        result: Result<(), Error>,
        /// What to print about the child's end, if anything.
        diagnostic: Option<WaitDiagnostic>,
    },
}

/// Where the launch of a command with the given path check stands.
#[derive(Clone, Copy, Debug, PartialEq, Eq)]
pub struct ExecuteProgress {
    /// Whether to report that the program is missing or not executable.
    pub not_executable: bool,
    /// What the launch itself does next.
    pub launch: ExecProgress,
}

/// What the parent does once it has the child's identifier.
pub open spec fn parent_progress(should_wait: bool, child: i32, waits: Seq<WaitReply>) -> ExecProgress {
    if should_wait {
        match wait_progress(WaitRequest { pid: Some(child), no_hang: false }, waits) {
            WaitProgress::Call(request) => ExecProgress::Wait(request),
            WaitProgress::Returned { calls, result, diagnostic } => ExecProgress::Returned {
                result: match result {
                    Ok(_) => Ok(()),
                    Err(error) => Err(error),
                },
                diagnostic,
            },
        }
    } else {
        ExecProgress::Returned { result: Ok(()), diagnostic: None }
    }
}

/// Where the launch of a program stands, given the reply of the fork (if it
/// was made), the `errno` of a failed image replacement (if it was tried and
/// came back) and the replies of the wait calls.
pub open spec fn exec_progress(
    program: &'static str,
    should_wait: bool,
    fork: Option<ForkReply>,
    image_failure: Option<i32>,
    waits: Seq<WaitReply>,
) -> ExecProgress {
    match fork {
        None => ExecProgress::Fork,
        Some(Err(code)) => ExecProgress::Returned {
            result: Err(Error::Errno(code)),
            diagnostic: None,
        },
        Some(Ok(ForkResult::Child)) => match image_failure {
            None => ExecProgress::ReplaceImage { program },
            Some(_) => ExecProgress::ExitChild(EXIT_FAILURE),
        },
        Some(Ok(ForkResult::Parent { child })) => parent_progress(should_wait, child, waits),
    }
}

/// Forks and runs a command in the child; the parent waits for that child
/// if asked to, and otherwise returns at once and leaves it to be reaped.
///
/// The command holds the program's path first, so it is not empty. A
/// failed fork is reported and creates no child. In the child nothing but
/// the image replacement happens, and a child whose image cannot be
/// replaced terminates. In the parent an exit code or a fatal signal of the
/// child is a diagnostic only; only a failed wait is an error.
pub fn fork_and_execute_command(
    command: &Command,
    should_wait: bool,
    fork: Option<ForkReply>,
    image_failure: Option<i32>,
    waits: &Vec<WaitReply>,
) -> (progress: ExecProgress)
    requires
        command.argv@.len() > 0,
    ensures
        progress == exec_progress(command.argv@[0], should_wait, fork, image_failure, waits@),
        fork matches Some(Ok(ForkResult::Child)) ==> progress is ReplaceImage
            || progress is ExitChild,
{
    match fork {
        None => ExecProgress::Fork,
        Some(Err(code)) => ExecProgress::Returned {
            result: Err(Error::Errno(code)),
            diagnostic: None,
        },
        Some(Ok(ForkResult::Child)) => match image_failure {
            None => ExecProgress::ReplaceImage { program: command.argv[0] },
            Some(_) => ExecProgress::ExitChild(EXIT_FAILURE),
        },
        Some(Ok(ForkResult::Parent { child })) => {
            if should_wait {
                match wait_pid_no_interrupt(wait_for_child(child), waits) {
                    WaitProgress::Call(again) => ExecProgress::Wait(again),
                    WaitProgress::Returned { calls: _, result, diagnostic } => {
                        let outcome: Result<(), Error> = match result {
                            Ok(_) => Ok(()),
                            Err(error) => Err(error),
                        };
                        ExecProgress::Returned { result: outcome, diagnostic }
                    },
                }
            } else {
                ExecProgress::Returned { result: Ok(()), diagnostic: None }
            }
        },
    }
}

/// Runs the program at a path, without further arguments, and waits for
/// it. A path that is missing or not executable is reported, and the launch
/// is attempted all the same.
pub fn execute(
    path: &'static str,
    executable: bool,
    fork: Option<ForkReply>,
    image_failure: Option<i32>,
    waits: &Vec<WaitReply>,
) -> (progress: ExecuteProgress)
    ensures
        progress.not_executable == !executable,
        progress.launch == exec_progress(path, true, fork, image_failure, waits@),
{
    let mut argv: Vec<&'static str> = Vec::new();
    argv.push(path);
    let command = Command { argv };
    ExecuteProgress {
        not_executable: !executable,
        launch: fork_and_execute_command(&command, true, fork, image_failure, waits),
    }
}

/// A launch that is not to wait never asks for a wait call: the child is
/// left to be reaped later.
pub proof fn lemma_launch_without_wait_never_waits(
    program: &'static str,
    fork: Option<ForkReply>,
    image_failure: Option<i32>,
    waits: Seq<WaitReply>,
)
    ensures
        !(exec_progress(program, false, fork, image_failure, waits) is Wait),
{
}

/// A child that exits with a non-zero code, or is killed by a signal, never
/// makes the launch that waited for it fail: the parent returns success and
/// a diagnostic.
pub proof fn lemma_child_failure_is_not_fatal(
    program: &'static str,
    child: i32,
    status: WaitStatus,
)
    requires
        status is Exited || status is Signaled,
    ensures
        exec_progress(
            program,
            true,
            Some(Ok(ForkResult::Parent { child })),
            None,
            seq![Ok::<WaitStatus, i32>(status)],
        ) == (ExecProgress::Returned {
            result: Ok(()),
            diagnostic: reply_diagnostic(Ok::<WaitStatus, i32>(status)),
        }),
{
    let waits = seq![Ok::<WaitStatus, i32>(status)];
    let request = WaitRequest { pid: Some(child), no_hang: false };
    crate::wait::lemma_wait_returns_first_real_reply(request, waits, 0);
}

} // verus!
