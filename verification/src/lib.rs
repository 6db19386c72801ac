//! The decision core of a minimal init process.
//!
//! Every operating-system call (mount, fork, wait, signal registration) is
//! performed by the embedding program. The functions here decide, from the
//! replies the system has given so far, which call comes next and what the
//! procedure finally returns, so that each rule of the boot, supervision
//! and teardown sequences is stated in a contract and proved.

use vstd::prelude::*;

pub mod boot;
pub mod error;
pub mod exec;
pub mod fs;
pub mod mount;
pub mod pid;
pub mod sequence;
pub mod signal;
pub mod tty;
pub mod utils;
pub mod wait;

use crate::error::Error;
use crate::pid::{ensure_running_as_init_system, INIT_PID};
use crate::sequence::StepReply;

verus! {

/// Where the startup of the init process stands.
#[derive(Clone, Copy, Debug, PartialEq, Eq)]
pub enum RunProgress {
    /// Install the signal handler.
    InstallSignalHandler,
    /// Run the mount sequence.
    MountFilesystem,
    /// Bring the rest of the system up.
    BootUpSystem,
    /// Startup is over: with success the process idles until a signal asks
    /// for a restart or a power-off; with an error it exits.
    Returned(Result<(), Error>),
}

/// Where startup stands for a process identifier after the results of the
/// phases run so far. A signal handler that cannot be installed ends
/// startup, and so does a bring-up that fails; the mount sequence reports
/// its failures itself, and whatever it returns, bring-up follows.
pub open spec fn run_progress(pid: i32, phases: Seq<StepReply>) -> RunProgress {
    if pid != INIT_PID {
        RunProgress::Returned(Err(Error::NotRunningAsInitSystem))
    } else if phases.len() == 0 {
        RunProgress::InstallSignalHandler
    } else if phases[0] is Err {
        RunProgress::Returned(phases[0])
    } else if phases.len() == 1 {
        RunProgress::MountFilesystem
    } else if phases.len() == 2 {
        RunProgress::BootUpSystem
    } else {
        RunProgress::Returned(phases[2])
    }
}

/// The exit code for the result of startup.
pub open spec fn exit_code_of(result: Result<(), Error>) -> i32 {
    match result {
        Ok(_) => 0,
        Err(_) => 1,
    }
}

/// The startup of the init process: check the process identity, install
/// the signal handler, mount the filesystems, bring the system up. With
/// any other process identifier nothing is installed or mounted at all,
/// and nothing is mounted before the handler is installed.
///
/// `phases` holds the results of the phases run so far.
pub fn run(pid: i32, phases: &Vec<StepReply>) -> (progress: RunProgress)
    ensures
        progress == run_progress(pid, phases@),
        pid != INIT_PID ==> progress == RunProgress::Returned(
            Err(Error::NotRunningAsInitSystem),
        ),
{
    match ensure_running_as_init_system(pid) {
        Err(error) => {
            return RunProgress::Returned(Err(error));
        },
        Ok(_) => {},
    }
    if phases.len() == 0 {
        return RunProgress::InstallSignalHandler;
    }
    match phases[0] {
        Err(error) => {
            return RunProgress::Returned(Err(error));
        },
        Ok(_) => {},
    }
    if phases.len() == 1 {
        RunProgress::MountFilesystem
    } else if phases.len() == 2 {
        RunProgress::BootUpSystem
    } else {
        RunProgress::Returned(phases[2])
    }
}

/// Where the process stands in its life.
#[derive(Clone, Copy, Debug, PartialEq, Eq, Structural)]
pub enum Lifecycle {
    /// Startup is to be run.
    Startup,
    /// The system is up: wait for signals and handle them.
    Idle,
    /// A signal has asked for this reboot command: run the shutdown
    /// sequence to its end.
    Shutdown(i32),
    /// Issue this reboot command, if there is one, and exit with the code.
    Leave { command: Option<i32>, code: i32 },
}

/// Where the process stands, given the result of startup once it has run,
/// the reboot command a signal has asked for, if any, and the result of the
/// shutdown sequence once it has run. A failed startup leaves at once with
/// a non-zero code and no reboot command; the reboot command is issued only
/// after the shutdown sequence has returned.
pub open spec fn lifecycle_of(
    startup: Option<Result<(), Error>>,
    request: Option<i32>,
    shutdown: Option<Result<(), Error>>,
) -> Lifecycle {
    match startup {
        None => Lifecycle::Startup,
        Some(Err(error)) => Lifecycle::Leave { command: None, code: exit_code_of(Err(error)) },
        Some(Ok(_)) => match request {
            None => Lifecycle::Idle,
            Some(command) => match shutdown {
                None => Lifecycle::Shutdown(command),
                Some(result) => Lifecycle::Leave {
                    command: Some(command),
                    code: exit_code_of(result),
                },
            },
        },
    }
}

/// Decides what the process does next in its life.
pub fn lifecycle(
    startup: Option<Result<(), Error>>,
    request: Option<i32>,
    shutdown: Option<Result<(), Error>>,
) -> (phase: Lifecycle)
    ensures
        phase == lifecycle_of(startup, request, shutdown),
{
    match startup {
        None => Lifecycle::Startup,
        Some(Err(error)) => Lifecycle::Leave { command: None, code: exit_code(&Err(error)) },
        Some(Ok(_)) => match request {
            None => Lifecycle::Idle,
            Some(command) => match shutdown {
                None => Lifecycle::Shutdown(command),
                Some(result) => Lifecycle::Leave {
                    command: Some(command),
                    code: exit_code(&result),
                },
            },
        },
    }
}

/// The code the process exits with: zero after a clean run, non-zero after
/// a startup that failed.
pub fn exit_code(result: &Result<(), Error>) -> (code: i32)
    ensures
        code == exit_code_of(*result),
        code == 0 <==> *result is Ok,
{
    match result {
        Ok(_) => 0,
        Err(_) => crate::exec::EXIT_FAILURE,
    }
}

} // verus!
