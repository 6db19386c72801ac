//! The signals the init process reacts to and what each of them asks for.

use vstd::prelude::*;
use crate::error::Error;
use crate::sequence::{
    lemma_sequence_result_is_final, sequence_of, sequence_progress, Sequence, StepReply,
};
use crate::wait::{drain_ended, reap_child_processes, ReapProgress, WaitReply, WaitRequest};

verus! {

/// The interactive restart request (keyboard interrupt).
pub const SIGINT: i32 = 2;

/// The operator's power-off request.
pub const SIGUSR1: i32 = 10;

/// The child-termination notification.
pub const SIGCHLD: i32 = 17;

/// The reboot command that restarts the machine.
pub const LINUX_REBOOT_CMD_RESTART: i32 = 0x0123_4567;

/// The reboot command that powers the machine off.
pub const LINUX_REBOOT_CMD_POWER_OFF: i32 = 0x4321_FEDC;

/// The bit that stands for the restart request in a set of pending
/// signals: bit number `SIGINT`.
pub const SIGINT_BIT: u64 = 0x4;

/// The bit that stands for the power-off request: bit number `SIGUSR1`.
pub const SIGUSR1_BIT: u64 = 0x400;

/// The bit that stands for the child-termination notification: bit number
/// `SIGCHLD`.
pub const SIGCHLD_BIT: u64 = 0x2_0000;

/// The result code of an action that has fully handled its signal.
pub const HANDLED: i32 = -1;

/// The lifecycle action mapped to a signal.
#[derive(Clone, Copy, Debug, PartialEq, Eq, Structural)]
pub enum Callback {
    /// Collect every child that has already terminated.
    ReapChildProcesses,
    /// Ask for a restart of the machine.
    RestartMachine,
    /// Ask for the machine to be powered off.
    ShutdownMachine,
}

/// Where an action stands after the wait replies received so far.
#[derive(Clone, Copy, Debug, PartialEq, Eq, Structural)]
pub enum CallbackProgress {
    /// The action needs this wait call performed.
    Call(WaitRequest),
    /// The action is over with this result code.
    Returned(i32),
}

/// What the handler of a signal decides.
#[derive(Clone, Copy, Debug, PartialEq, Eq, Structural)]
pub enum SignalProgress {
    /// The mapped action needs this wait call performed.
    Call(WaitRequest),
    /// Nothing more to do: normal execution resumes.
    Resume,
    /// The machine is to leave its session by this reboot command, after
    /// the teardown sequence has run outside of signal context.
    Transition(i32),
}

/// Whether the signal handler is registered.
#[derive(Clone, Copy, Debug, PartialEq, Eq, Structural)]
pub enum HandlerState {
    /// No signal has been registered yet.
    Uninstalled,
    /// All handled signals are registered; this is never undone.
    Installed,
}

/// Where the installation of the handler stands.
#[derive(Clone, Copy, Debug, PartialEq, Eq)]
pub enum InstallProgress {
    /// Register the generic handler for this signal.
    Register(i32),
    /// The installation is over.
    Returned(Result<(), Error>),
}

/// The dispatch table: the action mapped to a signal number, if any.
pub open spec fn action_for(signal: i32) -> Option<Callback> {
    if signal == SIGCHLD {
        Some(Callback::ReapChildProcesses)
    } else if signal == SIGUSR1 {
        Some(Callback::ShutdownMachine)
    } else if signal == SIGINT {
        Some(Callback::RestartMachine)
    } else {
        None
    }
}

/// The signals for which the handler is registered, in registration order.
pub open spec fn handled_signals() -> Seq<i32> {
    seq![SIGINT, SIGUSR1, SIGCHLD]
}

/// Where the child-reaping action stands after the replies.
pub open spec fn reap_wrapper_progress(replies: Seq<WaitReply>) -> CallbackProgress {
    if drain_ended(replies) {
        CallbackProgress::Returned(HANDLED)
    } else {
        CallbackProgress::Call(WaitRequest { pid: None, no_hang: true })
    }
}

/// Where an action stands after the replies.
pub open spec fn callback_progress(callback: Callback, replies: Seq<WaitReply>) -> CallbackProgress {
    match callback {
        Callback::ReapChildProcesses => reap_wrapper_progress(replies),
        Callback::RestartMachine => CallbackProgress::Returned(LINUX_REBOOT_CMD_RESTART),
        Callback::ShutdownMachine => CallbackProgress::Returned(LINUX_REBOOT_CMD_POWER_OFF),
    }
}

/// What the handler decides for a signal after the replies.
pub open spec fn signal_progress(signal: i32, replies: Seq<WaitReply>) -> SignalProgress {
    match action_for(signal) {
        None => SignalProgress::Resume,
        Some(callback) => match callback_progress(callback, replies) {
            CallbackProgress::Call(request) => SignalProgress::Call(request),
            CallbackProgress::Returned(code) => if code < 0 {
                SignalProgress::Resume
            } else {
                SignalProgress::Transition(code)
            },
        },
    }
}

/// Where the installation stands after the replies to the registrations.
pub open spec fn install_progress(replies: Seq<StepReply>) -> InstallProgress {
    match sequence_of(replies, 3) {
        Sequence::Next(step) => InstallProgress::Register(handled_signals()[step as int]),
        Sequence::Failed(error) => InstallProgress::Returned(Err(error)),
        Sequence::Complete => InstallProgress::Returned(Ok(())),
    }
}

/// The bit of a signal in a set of pending signals; no bit for a signal
/// without an action.
pub open spec fn signal_bit_of(signal: i32) -> u64 {
    if signal == SIGCHLD {
        SIGCHLD_BIT
    } else if signal == SIGUSR1 {
        SIGUSR1_BIT
    } else if signal == SIGINT {
        SIGINT_BIT
    } else {
        0
    }
}

/// The pending signal that is handled first: the child-termination
/// notification before any request, so that reaping is never held up, and
/// the power-off request before the restart request.
pub open spec fn pending_signal(pending: u64) -> Option<i32> {
    if pending & SIGCHLD_BIT != 0 {
        Some(SIGCHLD)
    } else if pending & SIGUSR1_BIT != 0 {
        Some(SIGUSR1)
    } else if pending & SIGINT_BIT != 0 {
        Some(SIGINT)
    } else {
        None
    }
}

/// The bit that records a received signal as pending.
pub fn signal_bit(signal: i32) -> (bit: u64)
    ensures
        bit == signal_bit_of(signal),
{
    if signal == SIGCHLD {
        SIGCHLD_BIT
    } else if signal == SIGUSR1 {
        SIGUSR1_BIT
    } else if signal == SIGINT {
        SIGINT_BIT
    } else {
        0
    }
}

/// Picks, from the set of pending signals, the one to handle next.
pub fn next_pending_signal(pending: u64) -> (signal: Option<i32>)
    ensures
        signal == pending_signal(pending),
        signal matches Some(number) ==> action_for(number) is Some,
{
    if pending & SIGCHLD_BIT != 0 {
        Some(SIGCHLD)
    } else if pending & SIGUSR1_BIT != 0 {
        Some(SIGUSR1)
    } else if pending & SIGINT_BIT != 0 {
        Some(SIGINT)
    } else {
        None
    }
}

/// Each handled signal has the bit of its own number, and a signal that is
/// the only one pending is the one picked.
pub proof fn lemma_pending_bits_are_the_signal_numbers()
    ensures
        SIGINT_BIT == 1u64 << 2 && SIGUSR1_BIT == 1u64 << 10 && SIGCHLD_BIT == 1u64 << 17,
        pending_signal(SIGCHLD_BIT) == Some(SIGCHLD),
        pending_signal(SIGUSR1_BIT) == Some(SIGUSR1),
        pending_signal(SIGINT_BIT) == Some(SIGINT),
        pending_signal(0) == None::<i32>,
        pending_signal(SIGINT_BIT | SIGUSR1_BIT) == Some(SIGUSR1),
{
    assert(0x4u64 == 1u64 << 2 && 0x400u64 == 1u64 << 10 && 0x2_0000u64 == 1u64 << 17)
        by (bit_vector);
    assert(0x2_0000u64 & 0x2_0000u64 != 0) by (bit_vector);
    assert(0x400u64 & 0x2_0000u64 == 0 && 0x400u64 & 0x400u64 != 0) by (bit_vector);
    assert(0x4u64 & 0x2_0000u64 == 0 && 0x4u64 & 0x400u64 == 0 && 0x4u64 & 0x4u64 != 0)
        by (bit_vector);
    assert(0u64 & 0x2_0000u64 == 0 && 0u64 & 0x400u64 == 0 && 0u64 & 0x4u64 == 0)
        by (bit_vector);
    assert((0x4u64 | 0x400u64) & 0x2_0000u64 == 0 && (0x4u64 | 0x400u64) & 0x400u64 != 0)
        by (bit_vector);
}

/// Reaps the exited children and reports the signal as fully handled: the
/// result is negative whatever number of children was reaped, so that
/// reaping can never start a restart or a power-off.
pub fn reap_child_processes_wrapper(replies: &Vec<WaitReply>) -> (progress: CallbackProgress)
    ensures
        progress == reap_wrapper_progress(replies@),
        progress matches CallbackProgress::Returned(code) ==> code < 0,
{
    match reap_child_processes(replies) {
        ReapProgress::Call(request) => CallbackProgress::Call(request),
        ReapProgress::Returned(_) => CallbackProgress::Returned(HANDLED),
    }
}

/// The result code that asks for a restart.
pub fn restart_machine() -> (code: i32)
    ensures
        code == LINUX_REBOOT_CMD_RESTART,
        code >= 0,
{
    LINUX_REBOOT_CMD_RESTART
}

/// The result code that asks for a power-off.
pub fn shutdown_machine() -> (code: i32)
    ensures
        code == LINUX_REBOOT_CMD_POWER_OFF,
        code >= 0,
{
    LINUX_REBOOT_CMD_POWER_OFF
}

/// Looks a signal number up in the dispatch table.
pub fn signal_to_action(signal: i32) -> (action: Option<Callback>)
    ensures
        action == action_for(signal),
        action is Some <==> signal == SIGCHLD || signal == SIGUSR1 || signal == SIGINT,
{
    if signal == SIGCHLD {
        Some(Callback::ReapChildProcesses)
    } else if signal == SIGUSR1 {
        Some(Callback::ShutdownMachine)
    } else if signal == SIGINT {
        Some(Callback::RestartMachine)
    } else {
        None
    }
}

/// Runs an action of the dispatch table on the wait replies received so
/// far.
pub fn run_callback(callback: Callback, replies: &Vec<WaitReply>) -> (progress: CallbackProgress)
    ensures
        progress == callback_progress(callback, replies@),
{
    match callback {
        Callback::ReapChildProcesses => reap_child_processes_wrapper(replies),
        Callback::RestartMachine => CallbackProgress::Returned(restart_machine()),
        Callback::ShutdownMachine => CallbackProgress::Returned(shutdown_machine()),
    }
}

/// The generic handler: looks the received signal up, runs the mapped
/// action and reads its result code. A signal without an action and a
/// negative code both resume normal execution; a non-negative code asks
/// for the transition it names.
pub fn handle_signal(received_signal: i32, replies: &Vec<WaitReply>) -> (progress: SignalProgress)
    ensures
        progress == signal_progress(received_signal, replies@),
        received_signal == SIGCHLD ==> !(progress is Transition),
        progress matches SignalProgress::Transition(code) ==> code >= 0,
{
    match signal_to_action(received_signal) {
        None => SignalProgress::Resume,
        Some(callback) => match run_callback(callback, replies) {
            CallbackProgress::Call(request) => SignalProgress::Call(request),
            CallbackProgress::Returned(code) => {
                if code < 0 {
                    SignalProgress::Resume
                } else {
                    SignalProgress::Transition(code)
                }
            },
        },
    }
}

/// Installs the generic handler for the three handled signals, in order,
/// and stops at the first registration that fails.
///
/// `replies` holds the replies to the registrations made so far.
pub fn install_signal_handler(replies: &Vec<StepReply>) -> (progress: InstallProgress)
    ensures
        progress == install_progress(replies@),
{
    match sequence_progress(replies, 3) {
        Sequence::Next(step) => {
            if step == 0 {
                InstallProgress::Register(SIGINT)
            } else if step == 1 {
                InstallProgress::Register(SIGUSR1)
            } else {
                InstallProgress::Register(SIGCHLD)
            }
        },
        Sequence::Failed(error) => InstallProgress::Returned(Err(error)),
        Sequence::Complete => InstallProgress::Returned(Ok(())),
    }
}

/// The state of the handler after the replies to the registrations: it is
/// installed once every registration has succeeded.
pub fn handler_state(replies: &Vec<StepReply>) -> (state: HandlerState)
    ensures
        state is Installed <==> install_progress(replies@) == InstallProgress::Returned(Ok(())),
{
    match install_signal_handler(replies) {
        InstallProgress::Returned(Ok(_)) => HandlerState::Installed,
        _ => HandlerState::Uninstalled,
    }
}

/// The installation is never reversed: once the handler is installed, it
/// stays installed whatever is replied afterwards.
pub proof fn lemma_installation_is_never_reversed(replies: Seq<StepReply>, more: Seq<StepReply>)
    requires
        install_progress(replies) == InstallProgress::Returned(Ok(())),
    ensures
        install_progress(replies + more) == InstallProgress::Returned(Ok(())),
{
    lemma_sequence_result_is_final(replies, more, 3);
}

/// Only the three mapped signals have an action, and the signals that are
/// registered are exactly those.
pub proof fn lemma_registered_signals_are_mapped(signal: i32)
    ensures
        action_for(signal) is Some <==> handled_signals().contains(signal),
{
    let handled = handled_signals();
    assert(handled[0] == SIGINT && handled[1] == SIGUSR1 && handled[2] == SIGCHLD);
}

} // verus!
