use incipio::error::Error;
use incipio::sequence::{sequence_progress, Sequence, StepReply};
use incipio::signal::{
    handle_signal, handler_state, install_signal_handler, next_pending_signal,
    reap_child_processes_wrapper, signal_bit, SIGCHLD_BIT, SIGINT_BIT, SIGUSR1_BIT,
    restart_machine, run_callback, shutdown_machine, signal_to_action, Callback,
    CallbackProgress, HandlerState, InstallProgress, SignalProgress, HANDLED,
    LINUX_REBOOT_CMD_POWER_OFF, LINUX_REBOOT_CMD_RESTART, SIGCHLD, SIGINT, SIGUSR1,
};
use incipio::wait::{poll_any_child, WaitReply, WaitStatus};

fn clean_exit(pid: i32) -> WaitReply {
    Ok(WaitStatus::Exited { pid, code: 0 })
}

#[test]
fn signal_numbers_match_the_system_values() {
    assert_eq!(SIGINT, nix::libc::SIGINT);
    assert_eq!(SIGUSR1, nix::libc::SIGUSR1);
    assert_eq!(SIGCHLD, nix::libc::SIGCHLD);
    assert_eq!(SIGINT, nix::sys::signal::Signal::SIGINT as i32);
    assert_eq!(SIGUSR1, nix::sys::signal::Signal::SIGUSR1 as i32);
    assert_eq!(SIGCHLD, nix::sys::signal::Signal::SIGCHLD as i32);
}

#[test]
fn reboot_commands_match_the_system_values() {
    assert_eq!(LINUX_REBOOT_CMD_RESTART, nix::libc::LINUX_REBOOT_CMD_RESTART);
    assert_eq!(LINUX_REBOOT_CMD_POWER_OFF, nix::libc::LINUX_REBOOT_CMD_POWER_OFF);
    assert_eq!(restart_machine(), 0x0123_4567);
    assert_eq!(shutdown_machine(), 0x4321_FEDC);
}

#[test]
fn dispatch_table_maps_exactly_three_signals() {
    assert_eq!(signal_to_action(SIGCHLD), Some(Callback::ReapChildProcesses));
    assert_eq!(signal_to_action(SIGUSR1), Some(Callback::ShutdownMachine));
    assert_eq!(signal_to_action(SIGINT), Some(Callback::RestartMachine));
    for signal in -3..70 {
        if signal != SIGCHLD && signal != SIGUSR1 && signal != SIGINT {
            assert_eq!(signal_to_action(signal), None);
        }
    }
}

#[test]
fn reap_wrapper_always_reports_handled() {
    assert_eq!(HANDLED, -1);
    assert_eq!(reap_child_processes_wrapper(&vec![]), CallbackProgress::Call(poll_any_child()));
    let none_left: Vec<WaitReply> = vec![Ok(WaitStatus::StillAlive)];
    assert_eq!(reap_child_processes_wrapper(&none_left), CallbackProgress::Returned(-1));
    let three: Vec<WaitReply> = vec![clean_exit(2), clean_exit(3), clean_exit(4), Ok(WaitStatus::StillAlive)];
    assert_eq!(reap_child_processes_wrapper(&three), CallbackProgress::Returned(-1));
}

#[test]
fn callbacks_return_their_codes() {
    assert_eq!(
        run_callback(Callback::RestartMachine, &vec![]),
        CallbackProgress::Returned(LINUX_REBOOT_CMD_RESTART)
    );
    assert_eq!(
        run_callback(Callback::ShutdownMachine, &vec![]),
        CallbackProgress::Returned(LINUX_REBOOT_CMD_POWER_OFF)
    );
    assert_eq!(
        run_callback(Callback::ReapChildProcesses, &vec![]),
        CallbackProgress::Call(poll_any_child())
    );
}

#[test]
fn child_termination_with_three_exited_children_reaps_all_and_resumes() {
    let mut replies: Vec<WaitReply> = Vec::new();
    let mut polls = 0;
    let exits = vec![clean_exit(10), clean_exit(11), clean_exit(12)];
    loop {
        match handle_signal(SIGCHLD, &replies) {
            SignalProgress::Call(request) => {
                assert_eq!(request, poll_any_child());
                let reply = if polls < exits.len() {
                    exits[polls]
                } else {
                    Ok(WaitStatus::StillAlive)
                };
                polls += 1;
                replies.push(reply);
            }
            progress => {
                assert_eq!(progress, SignalProgress::Resume);
                break;
            }
        }
    }
    assert_eq!(polls, 4);
    assert_eq!(
        incipio::wait::reap_child_processes(&replies),
        incipio::wait::ReapProgress::Returned(3)
    );
}

#[test]
fn restart_request_asks_for_the_restart_transition() {
    assert_eq!(
        handle_signal(SIGINT, &vec![]),
        SignalProgress::Transition(LINUX_REBOOT_CMD_RESTART)
    );
}

#[test]
fn power_off_request_asks_for_the_power_off_transition() {
    assert_eq!(
        handle_signal(SIGUSR1, &vec![]),
        SignalProgress::Transition(LINUX_REBOOT_CMD_POWER_OFF)
    );
}

#[test]
fn unmapped_signals_are_ignored() {
    assert_eq!(handle_signal(nix::libc::SIGTERM, &vec![]), SignalProgress::Resume);
    assert_eq!(handle_signal(nix::libc::SIGHUP, &vec![]), SignalProgress::Resume);
    assert_eq!(handle_signal(0, &vec![]), SignalProgress::Resume);
}

#[test]
fn handler_is_registered_for_the_three_signals_in_order() {
    let mut replies: Vec<StepReply> = Vec::new();
    assert_eq!(install_signal_handler(&replies), InstallProgress::Register(SIGINT));
    assert_eq!(handler_state(&replies), HandlerState::Uninstalled);
    replies.push(Ok(()));
    assert_eq!(install_signal_handler(&replies), InstallProgress::Register(SIGUSR1));
    replies.push(Ok(()));
    assert_eq!(install_signal_handler(&replies), InstallProgress::Register(SIGCHLD));
    assert_eq!(handler_state(&replies), HandlerState::Uninstalled);
    replies.push(Ok(()));
    assert_eq!(install_signal_handler(&replies), InstallProgress::Returned(Ok(())));
    assert_eq!(handler_state(&replies), HandlerState::Installed);
}

#[test]
fn failed_registration_stops_the_installation() {
    let einval = Error::Errno(nix::libc::EINVAL);
    let replies: Vec<StepReply> = vec![Ok(()), Err(einval)];
    assert_eq!(install_signal_handler(&replies), InstallProgress::Returned(Err(einval)));
    assert_eq!(handler_state(&replies), HandlerState::Uninstalled);
    let later: Vec<StepReply> = vec![Ok(()), Err(einval), Ok(())];
    assert_eq!(install_signal_handler(&later), InstallProgress::Returned(Err(einval)));
}

#[test]
fn sequence_steps_come_one_by_one() {
    assert_eq!(sequence_progress(&vec![], 0), Sequence::Complete);
    assert_eq!(sequence_progress(&vec![], 2), Sequence::Next(0));
    assert_eq!(sequence_progress(&vec![Ok(())], 2), Sequence::Next(1));
    assert_eq!(sequence_progress(&vec![Ok(()), Ok(())], 2), Sequence::Complete);
    assert_eq!(sequence_progress(&vec![Ok(()), Ok(()), Err(Error::MmapFailed)], 2), Sequence::Complete);
    assert_eq!(
        sequence_progress(&vec![Err(Error::MmapFailed), Err(Error::WriteToString)], 2),
        Sequence::Failed(Error::MmapFailed)
    );
}

#[test]
fn pending_bits_are_the_signal_numbers() {
    assert_eq!(SIGINT_BIT, 1u64 << nix::libc::SIGINT);
    assert_eq!(SIGUSR1_BIT, 1u64 << nix::libc::SIGUSR1);
    assert_eq!(SIGCHLD_BIT, 1u64 << nix::libc::SIGCHLD);
    assert_eq!(signal_bit(SIGINT), SIGINT_BIT);
    assert_eq!(signal_bit(SIGUSR1), SIGUSR1_BIT);
    assert_eq!(signal_bit(SIGCHLD), SIGCHLD_BIT);
    assert_eq!(signal_bit(nix::libc::SIGTERM), 0);
}

#[test]
fn pending_signals_are_picked_in_a_fixed_order() {
    assert_eq!(next_pending_signal(0), None);
    assert_eq!(next_pending_signal(1u64 << nix::libc::SIGTERM), None);
    assert_eq!(next_pending_signal(SIGINT_BIT), Some(SIGINT));
    assert_eq!(next_pending_signal(SIGUSR1_BIT), Some(SIGUSR1));
    assert_eq!(next_pending_signal(SIGINT_BIT | SIGUSR1_BIT), Some(SIGUSR1));
    assert_eq!(next_pending_signal(SIGINT_BIT | SIGUSR1_BIT | SIGCHLD_BIT), Some(SIGCHLD));
    assert_eq!(next_pending_signal(u64::MAX), Some(SIGCHLD));
}
