//! Collecting the exit status of child processes.
//!
//! The embedding program issues the wait calls; the functions here read the
//! replies in the order they came and decide whether to call again.

use vstd::prelude::*;
use crate::error::Error;

verus! {

/// The `errno` value of a system call interrupted by a signal.
pub const EINTR: i32 = 4;

/// What one wait call reported about a child.
#[derive(Clone, Copy, Debug, PartialEq, Eq, Structural)]
pub enum WaitStatus {
    /// The child exited with the given code.
    Exited { pid: i32, code: i32 },
    /// The child was killed by the given signal.
    Signaled { pid: i32, signal: i32, core_dumped: bool },
    /// The child was stopped by the given signal.
    Stopped { pid: i32, signal: i32 },
    /// The child was resumed.
    Continued { pid: i32 },
    /// A traced child hit a trace event.
    PtraceEvent { pid: i32, signal: i32, event: i32 },
    /// A traced child entered or left a system call.
    PtraceSyscall { pid: i32 },
    /// No child has changed state; only a non-blocking wait reports this.
    StillAlive,
}

/// The reply of one wait call: a status, or the raw `errno` of the failure.
pub type WaitReply = Result<WaitStatus, i32>;

/// The arguments of one wait call.
#[derive(Clone, Copy, Debug, PartialEq, Eq, Structural)]
pub struct WaitRequest {
    /// The child to wait for; `None` waits for any child.
    pub pid: Option<i32>,
    /// Whether the call returns at once when no child has changed state.
    pub no_hang: bool,
}

/// What is worth telling the operator about a collected status.
#[derive(Clone, Copy, Debug, PartialEq, Eq, Structural)]
pub enum WaitDiagnostic {
    /// The child exited with this non-zero code.
    ExitCode(i32),
    /// The child was killed by this signal.
    KilledBy(i32),
}

/// Where a blocking wait stands after the replies received so far.
#[derive(Clone, Copy, Debug, PartialEq, Eq)]
pub enum WaitProgress {
    /// Every reply so far was an interruption: issue this call (again).
    Call(WaitRequest),
    /// The wait is over.
    Returned {
        /// How many calls were made.
        calls: usize,
        /// The reply that ended the wait.
        result: Result<WaitStatus, Error>,
        /// What to print about it, if anything.
        diagnostic: Option<WaitDiagnostic>,
    },
}

/// Where a drain of exited children stands after the replies received so far.
#[derive(Clone, Copy, Debug, PartialEq, Eq, Structural)]
pub enum ReapProgress {
    /// More exits may be available: issue this call.
    Call(WaitRequest),
    /// Nothing more is immediately available; so many children were reaped.
    Returned(usize),
}

/// The role one reply plays in a drain.
#[derive(Clone, Copy, Debug, PartialEq, Eq, Structural)]
pub enum ReapVerdict {
    /// A child has terminated and was collected.
    Reaped,
    /// Nothing was collected, but more may be available.
    Again,
    /// No further exit is immediately available.
    Stop,
}

/// Whether the reply is an interruption by a signal.
pub open spec fn interrupted(reply: WaitReply) -> bool {
    reply == Err::<WaitStatus, i32>(EINTR)
}

/// The reply as the caller of a blocking wait sees it.
pub open spec fn settled(reply: WaitReply) -> Result<WaitStatus, Error> {
    match reply {
        Ok(status) => Ok(status),
        Err(code) => Err(Error::Errno(code)),
    }
}

/// The diagnostic owed for a status.
pub open spec fn diagnostic_of(status: WaitStatus) -> Option<WaitDiagnostic> {
    match status {
        WaitStatus::Exited { pid, code } => if code == 0 {
            None
        } else {
            Some(WaitDiagnostic::ExitCode(code))
        },
        WaitStatus::Signaled { pid, signal, core_dumped } => Some(WaitDiagnostic::KilledBy(signal)),
        _ => None,
    }
}

/// The diagnostic owed for a reply: that of its status, none for a failure.
pub open spec fn reply_diagnostic(reply: WaitReply) -> Option<WaitDiagnostic> {
    match reply {
        Ok(status) => diagnostic_of(status),
        Err(_) => None,
    }
}

/// Whether the status reports the end of a child.
pub open spec fn terminated(status: WaitStatus) -> bool {
    status is Exited || status is Signaled
}

/// The role of a reply in a drain: a termination is counted, "still alive"
/// or a failure other than an interruption ends the drain, anything else
/// asks for another call.
pub open spec fn reap_verdict_of(reply: WaitReply) -> ReapVerdict {
    match reply {
        Ok(status) => if terminated(status) {
            ReapVerdict::Reaped
        } else if status is StillAlive {
            ReapVerdict::Stop
        } else {
            ReapVerdict::Again
        },
        Err(code) => if code == EINTR {
            ReapVerdict::Again
        } else {
            ReapVerdict::Stop
        },
    }
}

/// The number of children that a drain collects from the replies, read in
/// order up to the first that ends the drain.
pub open spec fn reaped(replies: Seq<WaitReply>) -> nat
    decreases replies.len(),
{
    if replies.len() == 0 {
        0
    } else {
        match reap_verdict_of(replies[0]) {
            ReapVerdict::Stop => 0,
            ReapVerdict::Reaped => 1 + reaped(replies.drop_first()),
            ReapVerdict::Again => reaped(replies.drop_first()),
        }
    }
}

/// Whether some reply ends the drain.
pub open spec fn drain_ended(replies: Seq<WaitReply>) -> bool {
    exists|i: int| 0 <= i < replies.len() && reap_verdict_of(#[trigger] replies[i]) == ReapVerdict::Stop
}

/// Where a blocking wait stands when the replies before `at` were all
/// interruptions.
pub open spec fn wait_progress_from(request: WaitRequest, replies: Seq<WaitReply>, at: nat) -> WaitProgress
    decreases replies.len() - at,
{
    if at >= replies.len() {
        WaitProgress::Call(request)
    } else if interrupted(replies[at as int]) {
        wait_progress_from(request, replies, at + 1)
    } else {
        WaitProgress::Returned {
            calls: (at + 1) as usize,
            result: settled(replies[at as int]),
            diagnostic: reply_diagnostic(replies[at as int]),
        }
    }
}

/// Where a blocking wait stands after the given replies.
pub open spec fn wait_progress(request: WaitRequest, replies: Seq<WaitReply>) -> WaitProgress {
    wait_progress_from(request, replies, 0)
}

/// The request that waits, blocking, for one child.
pub fn wait_for_child(pid: i32) -> (request: WaitRequest)
    ensures
        request == (WaitRequest { pid: Some(pid), no_hang: false }),
{
    WaitRequest { pid: Some(pid), no_hang: false }
}

/// The request that asks, without blocking, for any exited child.
pub fn poll_any_child() -> (request: WaitRequest)
    ensures
        request == (WaitRequest { pid: None, no_hang: true }),
{
    WaitRequest { pid: None, no_hang: true }
}

/// What to print about a collected status: a non-zero exit code or a fatal
/// signal; nothing for a clean exit or any other status.
pub fn log_wait_status(status: WaitStatus) -> (diagnostic: Option<WaitDiagnostic>)
    ensures
        diagnostic == diagnostic_of(status),
{
    match status {
        WaitStatus::Exited { pid: _, code } => {
            if code == 0 {
                None
            } else {
                Some(WaitDiagnostic::ExitCode(code))
            }
        },
        WaitStatus::Signaled { pid: _, signal, core_dumped: _ } => Some(
            WaitDiagnostic::KilledBy(signal),
        ),
        _ => None,
    }
}

/// Waits for a child, retrying while the wait is interrupted.
///
/// `replies` holds the replies of the wait calls made so far, oldest first.
/// The wait returns with the first reply that is not an interruption, and
/// never with an interruption; while there is none, the same request is to
/// be issued again.
pub fn wait_pid_no_interrupt(request: WaitRequest, replies: &Vec<WaitReply>) -> (progress:
    WaitProgress)
    ensures
        progress == wait_progress(request, replies@),
        progress matches WaitProgress::Returned { result, .. } ==> result != Err::<
            WaitStatus,
            Error,
        >(Error::Errno(EINTR)),
{
    let mut i: usize = 0;
    while i < replies.len()
        invariant
            i <= replies@.len(),
            wait_progress(request, replies@) == wait_progress_from(request, replies@, i as nat),
        decreases replies@.len() - i,
    {
        match replies[i] {
            Ok(status) => {
                return WaitProgress::Returned {
                    calls: i + 1,
                    result: Ok(status),
                    diagnostic: log_wait_status(status),
                };
            },
            Err(code) => {
                if code != EINTR {
                    return WaitProgress::Returned {
                        calls: i + 1,
                        result: Err(Error::Errno(code)),
                        diagnostic: None,
                    };
                }
            },
        }
        i += 1;
    }
    WaitProgress::Call(request)
}

/// However many interruptions precede it, the first reply that is not an
/// interruption is what a blocking wait returns, after one call per reply
/// up to it.
pub proof fn lemma_wait_returns_first_real_reply(
    request: WaitRequest,
    replies: Seq<WaitReply>,
    k: int,
)
    requires
        0 <= k < replies.len(),
        !interrupted(replies[k]),
        forall|i: int| 0 <= i < k ==> interrupted(#[trigger] replies[i]),
    ensures
        wait_progress(request, replies) == (WaitProgress::Returned {
            calls: (k + 1) as usize,
            result: settled(replies[k]),
            diagnostic: reply_diagnostic(replies[k]),
        }),
{
    lemma_wait_skips_interruptions(request, replies, k, 0);
}

/// While every reply is an interruption the wait has not returned: the same
/// request is due again.
pub proof fn lemma_wait_retries_while_interrupted(request: WaitRequest, replies: Seq<WaitReply>)
    requires
        forall|i: int| 0 <= i < replies.len() ==> interrupted(#[trigger] replies[i]),
    ensures
        wait_progress(request, replies) == WaitProgress::Call(request),
{
    lemma_wait_skips_interruptions(request, replies, replies.len() as int, 0);
}

proof fn lemma_wait_skips_interruptions(
    request: WaitRequest,
    replies: Seq<WaitReply>,
    k: int,
    at: nat,
)
    requires
        at <= k <= replies.len(),
        forall|i: int| 0 <= i < k ==> interrupted(#[trigger] replies[i]),
    ensures
        wait_progress_from(request, replies, at) == wait_progress_from(request, replies, k as nat),
    decreases k - at,
{
    if at < k {
        assert(interrupted(replies[at as int]));
        lemma_wait_skips_interruptions(request, replies, k, at + 1);
    }
}

/// The role one reply plays in a drain of exited children.
pub fn reap_verdict(reply: WaitReply) -> (verdict: ReapVerdict)
    ensures
        verdict == reap_verdict_of(reply),
{
    match reply {
        Ok(WaitStatus::Exited { .. }) => ReapVerdict::Reaped,
        Ok(WaitStatus::Signaled { .. }) => ReapVerdict::Reaped,
        Ok(WaitStatus::StillAlive) => ReapVerdict::Stop,
        Ok(_) => ReapVerdict::Again,
        Err(code) => {
            if code == EINTR {
                ReapVerdict::Again
            } else {
                ReapVerdict::Stop
            }
        },
    }
}

/// Collects every child that has already terminated, without blocking.
///
/// `replies` holds the replies of the non-blocking wait calls made so far,
/// oldest first. The drain is over with the first reply that says that no
/// child is left to collect; the count is the number of terminations
/// reported before it. Until then another non-blocking call is due.
pub fn reap_child_processes(replies: &Vec<WaitReply>) -> (progress: ReapProgress)
    ensures
        drain_ended(replies@) ==> progress == ReapProgress::Returned(reaped(replies@) as usize),
        !drain_ended(replies@) ==> progress == ReapProgress::Call(
            WaitRequest { pid: None, no_hang: true },
        ),
        reaped(replies@) <= replies@.len(),
{
    let mut count: usize = 0;
    let mut i: usize = 0;
    proof {
        assert(replies@.skip(0) =~= replies@);
    }
    while i < replies.len()
        invariant
            i <= replies@.len(),
            count <= i,
            forall|j: int| 0 <= j < i ==> reap_verdict_of(#[trigger] replies@[j]) != ReapVerdict::Stop,
            reaped(replies@) == count + reaped(replies@.skip(i as int)),
        decreases replies@.len() - i,
    {
        proof {
            assert(replies@.skip(i as int).drop_first() =~= replies@.skip(i as int + 1));
            assert(replies@.skip(i as int)[0] == replies@[i as int]);
        }
        match reap_verdict(replies[i]) {
            ReapVerdict::Stop => {
                return ReapProgress::Returned(count);
            },
            ReapVerdict::Reaped => {
                count += 1;
            },
            ReapVerdict::Again => {},
        }
        i += 1;
    }
    proof {
        assert(replies@.skip(i as int).len() == 0);
    }
    ReapProgress::Call(poll_any_child())
}

/// What a drain owes the operator: for each reply before the one that ends
/// the drain, in order, the diagnostic owed for it, if any.
pub open spec fn drain_diagnostics(replies: Seq<WaitReply>) -> Seq<WaitDiagnostic>
    decreases replies.len(),
{
    if replies.len() == 0 || reap_verdict_of(replies[0]) == ReapVerdict::Stop {
        Seq::empty()
    } else {
        match reply_diagnostic(replies[0]) {
            Some(diagnostic) => seq![diagnostic] + drain_diagnostics(replies.drop_first()),
            None => drain_diagnostics(replies.drop_first()),
        }
    }
}

/// What to print about the children collected by a drain: a child that
/// exited with a non-zero code or was killed by a signal is reported, in
/// the order of collection, and changes nothing else.
pub fn reap_diagnostics(replies: &Vec<WaitReply>) -> (diagnostics: Vec<WaitDiagnostic>)
    ensures
        diagnostics@ == drain_diagnostics(replies@),
{
    let mut diagnostics: Vec<WaitDiagnostic> = Vec::new();
    let mut i: usize = 0;
    proof {
        assert(replies@.skip(0) =~= replies@);
        assert(diagnostics@ + drain_diagnostics(replies@) =~= drain_diagnostics(replies@));
    }
    while i < replies.len()
        invariant
            i <= replies@.len(),
            drain_diagnostics(replies@) == diagnostics@ + drain_diagnostics(
                replies@.skip(i as int),
            ),
        decreases replies@.len() - i,
    {
        let ghost before = diagnostics@;
        let ghost rest = drain_diagnostics(replies@.skip(i as int + 1));
        proof {
            assert(replies@.skip(i as int).drop_first() =~= replies@.skip(i as int + 1));
            assert(replies@.skip(i as int)[0] == replies@[i as int]);
        }
        match reap_verdict(replies[i]) {
            ReapVerdict::Stop => {
                proof {
                    assert(before + Seq::<WaitDiagnostic>::empty() =~= before);
                }
                return diagnostics;
            },
            _ => {},
        }
        match replies[i] {
            Ok(status) => match log_wait_status(status) {
                Some(diagnostic) => {
                    diagnostics.push(diagnostic);
                    proof {
                        assert(before + (seq![diagnostic] + rest) =~= before.push(diagnostic)
                            + rest);
                    }
                },
                None => {},
            },
            Err(_) => {},
        }
        i += 1;
    }
    proof {
        assert(replies@.skip(i as int).len() == 0);
        assert(diagnostics@ + Seq::<WaitDiagnostic>::empty() =~= diagnostics@);
    }
    diagnostics
}

/// A drain that meets only terminations and then a reply that ends it
/// returns exactly their number, and a drain that starts at that ending
/// reply returns zero.
pub proof fn lemma_drain_counts_every_exit(exits: Seq<WaitReply>, rest: Seq<WaitReply>)
    requires
        forall|i: int| 0 <= i < exits.len() ==> reap_verdict_of(#[trigger] exits[i]) == ReapVerdict::Reaped,
        rest.len() > 0 ==> reap_verdict_of(rest[0]) == ReapVerdict::Stop,
    ensures
        reaped(exits + rest) == exits.len(),
        reaped(rest) == 0,
        rest.len() > 0 ==> drain_ended(exits + rest),
    decreases exits.len(),
{
    if rest.len() > 0 {
        assert((exits + rest)[exits.len() as int] == rest[0]);
    }
    if exits.len() == 0 {
        assert(exits + rest =~= rest);
    } else {
        assert((exits + rest)[0] == exits[0]);
        assert((exits + rest).drop_first() =~= exits.drop_first() + rest);
        lemma_drain_counts_every_exit(exits.drop_first(), rest);
    }
}

} // verus!
