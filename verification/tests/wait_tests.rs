use incipio::error::Error;
use incipio::wait::{
    log_wait_status, reap_diagnostics, poll_any_child, reap_child_processes, reap_verdict, wait_for_child,
    wait_pid_no_interrupt, ReapProgress, ReapVerdict, WaitDiagnostic, WaitProgress, WaitReply,
    WaitRequest, WaitStatus, EINTR,
};

fn exit_reply(pid: i32, code: i32) -> WaitReply {
    Ok(WaitStatus::Exited { pid, code })
}

#[test]
fn eintr_matches_the_system_value() {
    assert_eq!(EINTR, nix::libc::EINTR);
    assert_eq!(EINTR, nix::errno::Errno::EINTR as i32);
}

#[test]
fn wait_requests_are_fixed() {
    assert_eq!(wait_for_child(42), WaitRequest { pid: Some(42), no_hang: false });
    assert_eq!(poll_any_child(), WaitRequest { pid: None, no_hang: true });
}

#[test]
fn wait_without_replies_issues_the_call() {
    let request = wait_for_child(7);
    assert_eq!(wait_pid_no_interrupt(request, &vec![]), WaitProgress::Call(request));
}

#[test]
fn wait_retries_after_every_interruption() {
    let request = wait_for_child(7);
    let replies: Vec<WaitReply> = vec![Err(EINTR), Err(EINTR), Err(EINTR)];
    assert_eq!(wait_pid_no_interrupt(request, &replies), WaitProgress::Call(request));
}

#[test]
fn wait_returns_the_real_result_after_interruptions() {
    let request = wait_for_child(7);
    let replies: Vec<WaitReply> = vec![Err(EINTR), Err(EINTR), exit_reply(7, 0)];
    assert_eq!(
        wait_pid_no_interrupt(request, &replies),
        WaitProgress::Returned {
            calls: 3,
            result: Ok(WaitStatus::Exited { pid: 7, code: 0 }),
            diagnostic: None,
        }
    );
}

#[test]
fn wait_never_reports_the_interruption() {
    let request = wait_for_child(7);
    for interruptions in 0..6 {
        let mut replies: Vec<WaitReply> = Vec::new();
        for _ in 0..interruptions {
            replies.push(Err(EINTR));
        }
        replies.push(exit_reply(7, 3));
        let progress = wait_pid_no_interrupt(request, &replies);
        assert_eq!(
            progress,
            WaitProgress::Returned {
                calls: interruptions + 1,
                result: Ok(WaitStatus::Exited { pid: 7, code: 3 }),
                diagnostic: Some(WaitDiagnostic::ExitCode(3)),
            }
        );
    }
}

#[test]
fn wait_propagates_other_errors() {
    let request = wait_for_child(7);
    let echild = nix::libc::ECHILD;
    let replies: Vec<WaitReply> = vec![Err(EINTR), Err(echild), exit_reply(7, 0)];
    assert_eq!(
        wait_pid_no_interrupt(request, &replies),
        WaitProgress::Returned { calls: 2, result: Err(Error::Errno(echild)), diagnostic: None }
    );
}

#[test]
fn wait_ignores_replies_after_the_first_real_one() {
    let request = wait_for_child(7);
    let replies: Vec<WaitReply> = vec![exit_reply(7, 0), exit_reply(8, 1)];
    assert_eq!(
        wait_pid_no_interrupt(request, &replies),
        WaitProgress::Returned {
            calls: 1,
            result: Ok(WaitStatus::Exited { pid: 7, code: 0 }),
            diagnostic: None,
        }
    );
}

#[test]
fn log_is_silent_for_a_clean_exit() {
    assert_eq!(log_wait_status(WaitStatus::Exited { pid: 3, code: 0 }), None);
}

#[test]
fn log_reports_exit_codes_and_signals() {
    assert_eq!(
        log_wait_status(WaitStatus::Exited { pid: 3, code: 1 }),
        Some(WaitDiagnostic::ExitCode(1))
    );
    assert_eq!(
        log_wait_status(WaitStatus::Exited { pid: 3, code: -1 }),
        Some(WaitDiagnostic::ExitCode(-1))
    );
    assert_eq!(
        log_wait_status(WaitStatus::Signaled { pid: 3, signal: 9, core_dumped: false }),
        Some(WaitDiagnostic::KilledBy(9))
    );
}

#[test]
fn log_is_silent_for_other_statuses() {
    assert_eq!(log_wait_status(WaitStatus::StillAlive), None);
    assert_eq!(log_wait_status(WaitStatus::Stopped { pid: 3, signal: 19 }), None);
    assert_eq!(log_wait_status(WaitStatus::Continued { pid: 3 }), None);
    assert_eq!(log_wait_status(WaitStatus::PtraceSyscall { pid: 3 }), None);
    assert_eq!(log_wait_status(WaitStatus::PtraceEvent { pid: 3, signal: 5, event: 1 }), None);
}

#[test]
fn reap_verdicts() {
    assert_eq!(reap_verdict(exit_reply(1, 0)), ReapVerdict::Reaped);
    assert_eq!(reap_verdict(exit_reply(1, 2)), ReapVerdict::Reaped);
    assert_eq!(
        reap_verdict(Ok(WaitStatus::Signaled { pid: 1, signal: 11, core_dumped: true })),
        ReapVerdict::Reaped
    );
    assert_eq!(reap_verdict(Ok(WaitStatus::StillAlive)), ReapVerdict::Stop);
    assert_eq!(reap_verdict(Err(nix::libc::ECHILD)), ReapVerdict::Stop);
    assert_eq!(reap_verdict(Err(EINTR)), ReapVerdict::Again);
    assert_eq!(reap_verdict(Ok(WaitStatus::Stopped { pid: 1, signal: 19 })), ReapVerdict::Again);
    assert_eq!(reap_verdict(Ok(WaitStatus::Continued { pid: 1 })), ReapVerdict::Again);
}

#[test]
fn drain_polls_until_nothing_is_left() {
    assert_eq!(reap_child_processes(&vec![]), ReapProgress::Call(poll_any_child()));
    assert_eq!(
        reap_child_processes(&vec![exit_reply(4, 0), exit_reply(5, 0)]),
        ReapProgress::Call(poll_any_child())
    );
}

#[test]
fn drain_counts_three_exited_children() {
    let replies: Vec<WaitReply> =
        vec![exit_reply(4, 0), exit_reply(5, 1), exit_reply(6, 0), Ok(WaitStatus::StillAlive)];
    assert_eq!(reap_child_processes(&replies), ReapProgress::Returned(3));
}

#[test]
fn drain_ends_when_no_child_exists() {
    let replies: Vec<WaitReply> = vec![exit_reply(4, 0), Err(nix::libc::ECHILD)];
    assert_eq!(reap_child_processes(&replies), ReapProgress::Returned(1));
}

#[test]
fn second_drain_without_new_exits_returns_zero() {
    assert_eq!(
        reap_child_processes(&vec![Ok(WaitStatus::StillAlive)]),
        ReapProgress::Returned(0)
    );
    assert_eq!(reap_child_processes(&vec![Err(nix::libc::ECHILD)]), ReapProgress::Returned(0));
}

#[test]
fn drain_skips_interruptions_and_does_not_count_them() {
    let replies: Vec<WaitReply> = vec![
        Err(EINTR),
        exit_reply(4, 0),
        Err(EINTR),
        Ok(WaitStatus::Signaled { pid: 5, signal: 15, core_dumped: false }),
        Ok(WaitStatus::StillAlive),
        exit_reply(9, 0),
    ];
    assert_eq!(reap_child_processes(&replies), ReapProgress::Returned(2));
}

#[test]
fn drained_children_that_failed_are_reported() {
    let replies: Vec<WaitReply> = vec![
        exit_reply(10, 1),
        Ok(WaitStatus::Signaled { pid: 11, signal: nix::libc::SIGKILL, core_dumped: false }),
        Err(nix::libc::ECHILD),
    ];
    assert_eq!(reap_child_processes(&replies), ReapProgress::Returned(2));
    assert_eq!(
        reap_diagnostics(&replies),
        vec![WaitDiagnostic::ExitCode(1), WaitDiagnostic::KilledBy(nix::libc::SIGKILL)]
    );
}

#[test]
fn drain_reports_nothing_for_clean_exits_or_after_its_end() {
    let replies: Vec<WaitReply> = vec![
        exit_reply(10, 0),
        Err(EINTR),
        Ok(WaitStatus::StillAlive),
        exit_reply(12, 3),
    ];
    assert_eq!(reap_diagnostics(&replies), vec![]);
    assert_eq!(reap_diagnostics(&vec![]), vec![]);
}
