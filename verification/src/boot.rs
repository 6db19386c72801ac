//! Bringing the system up after the mounts, and taking it down.

use vstd::prelude::*;
use crate::error::Error;
use crate::fs::Entry;
use crate::exec::Command;
use crate::mount::{
    swapoff_helper, teardown_of, turn_off_swap_partitions, unmount_all_filesystems,
    HelperProgress, Teardown,
};
use crate::sequence::{sequence_from, sequence_of, sequence_progress, Sequence, StepReply};
use crate::utils::NumberReply;

verus! {

/// The reboot command that keeps the key combination from restarting the
/// machine.
pub const LINUX_REBOOT_CMD_CAD_OFF: i32 = 0;

/// A step of bringing the system up.
#[derive(Clone, Copy, Debug, PartialEq, Eq, Structural)]
pub enum BootUpStep {
    /// Set the host name from the configured name, or the default.
    SetHostname,
    /// Seed the kernel's random pool.
    SeedUrandom,
    /// Turn the three-finger salute into a signal to this process.
    DisableControlAltDel,
    /// Start the login terminals.
    OpenTtys,
}

/// Where bringing the system up stands.
#[derive(Clone, Copy, Debug, PartialEq, Eq)]
pub enum BootUpProgress {
    /// Perform this step.
    Perform(BootUpStep),
    /// The sequence is over.
    Returned(Result<(), Error>),
}

/// Where taking the system down stands.
#[derive(Debug, PartialEq, Eq)]
pub enum ShutdownProgress {
    /// Run this helper, which deactivates swap, and wait for it.
    TurnOffSwap(Command),
    /// Read the live mount table.
    Enumerate,
    /// Unmount the entry with this index.
    Unmount(usize),
    /// Remount the entry with this index read-only.
    RemountReadOnly(usize),
    /// The sequence is over.
    Returned(Result<(), Error>),
}

/// Taking the system down as contracts see it.
pub enum ShutdownProgressView {
    TurnOffSwap(Seq<Seq<char>>),
    Enumerate,
    Unmount(usize),
    RemountReadOnly(usize),
    Returned(Result<(), Error>),
}

impl View for ShutdownProgress {
    type V = ShutdownProgressView;

    open spec fn view(&self) -> ShutdownProgressView {
        match self {
            ShutdownProgress::TurnOffSwap(command) => ShutdownProgressView::TurnOffSwap(command@),
            ShutdownProgress::Enumerate => ShutdownProgressView::Enumerate,
            ShutdownProgress::Unmount(entry) => ShutdownProgressView::Unmount(*entry),
            ShutdownProgress::RemountReadOnly(entry) => ShutdownProgressView::RemountReadOnly(
                *entry,
            ),
            ShutdownProgress::Returned(result) => ShutdownProgressView::Returned(*result),
        }
    }
}

/// Where the seeding of the random pool stands.
#[derive(Clone, Copy, Debug, PartialEq, Eq)]
pub enum SeedProgress {
    /// Open the random pool for writing.
    OpenTarget,
    /// Write the seed to this descriptor.
    Write(i32),
    /// Close this descriptor.
    CloseTarget(i32),
    /// The seeding is over.
    Returned(Result<(), Error>),
}

/// What was read from the live mount table: its entries in order, or why
/// it could not be opened.
pub type MountTable = Result<Vec<Entry>, Error>;

/// Where bringing the system up stands after the replies: the host name
/// and the seed stop the sequence when they fail; the two steps after them
/// cannot fail, and their replies only mark them as done.
pub open spec fn boot_up_progress(replies: Seq<StepReply>) -> BootUpProgress {
    match sequence_of(replies, 2) {
        Sequence::Next(step) => BootUpProgress::Perform(
            if step == 0 {
                BootUpStep::SetHostname
            } else {
                BootUpStep::SeedUrandom
            },
        ),
        Sequence::Failed(error) => BootUpProgress::Returned(Err(error)),
        Sequence::Complete => if replies.len() == 2 {
            BootUpProgress::Perform(BootUpStep::DisableControlAltDel)
        } else if replies.len() == 3 {
            BootUpProgress::Perform(BootUpStep::OpenTtys)
        } else {
            BootUpProgress::Returned(Ok(()))
        },
    }
}

/// What teardown asks for, as a step of taking the system down.
pub open spec fn teardown_step(action: Teardown) -> ShutdownProgressView {
    match action {
        Teardown::Unmount(entry) => ShutdownProgressView::Unmount(entry),
        Teardown::RemountReadOnly(entry) => ShutdownProgressView::RemountReadOnly(entry),
        Teardown::Finished => ShutdownProgressView::Returned(Ok(())),
    }
}

/// Where taking the system down stands: swap first, whose failure changes
/// nothing; then the reading of the live mount table, whose failure ends
/// the sequence; then the teardown of each entry.
pub open spec fn boot_down_progress(
    swap: Seq<StepReply>,
    table: Option<MountTable>,
    replies: Seq<StepReply>,
) -> ShutdownProgressView {
    if swap.len() == 0 {
        ShutdownProgressView::TurnOffSwap(swapoff_helper())
    } else {
        match table {
            None => ShutdownProgressView::Enumerate,
            Some(Err(error)) => ShutdownProgressView::Returned(Err(error)),
            Some(Ok(entries)) => teardown_step(teardown_of(entries@, replies)),
        }
    }
}

/// Brings the system up once the filesystems are mounted: host name, seed,
/// key combination, terminals, in this order.
pub fn boot_up_system(replies: &Vec<StepReply>) -> (progress: BootUpProgress)
    ensures
        progress == boot_up_progress(replies@),
{
    match sequence_progress(replies, 2) {
        Sequence::Next(step) => {
            if step == 0 {
                BootUpProgress::Perform(BootUpStep::SetHostname)
            } else {
                BootUpProgress::Perform(BootUpStep::SeedUrandom)
            }
        },
        Sequence::Failed(error) => BootUpProgress::Returned(Err(error)),
        Sequence::Complete => {
            if replies.len() == 2 {
                BootUpProgress::Perform(BootUpStep::DisableControlAltDel)
            } else if replies.len() == 3 {
                BootUpProgress::Perform(BootUpStep::OpenTtys)
            } else {
                BootUpProgress::Returned(Ok(()))
            }
        },
    }
}

/// The host name used where none is configured.
pub open spec fn default_hostname() -> Seq<u8> {
    seq![0x6cu8, 0x69u8, 0x6eu8, 0x75u8, 0x78u8]
}

/// The host name to set: the configured one where the configuration could
/// be read, `linux` otherwise.
pub fn hostname_or_default(configured: Option<Vec<u8>>) -> (name: Vec<u8>)
    ensures
        name@ == (match configured {
            Some(bytes) => bytes@,
            None => default_hostname(),
        }),
{
    match configured {
        Some(bytes) => bytes,
        None => {
            let mut name: Vec<u8> = Vec::new();
            name.push(0x6c);
            name.push(0x69);
            name.push(0x6e);
            name.push(0x75);
            name.push(0x78);
            assert(name@ =~= default_hostname());
            name
        },
    }
}

/// Where the writing of bytes into a kernel file stands.
#[derive(Clone, Copy, Debug, PartialEq, Eq)]
pub enum WriteProgress {
    /// Open the kernel file for writing.
    OpenTarget,
    /// Try to open the file that holds the bytes to write.
    OpenSource,
    /// Write the bytes to this descriptor.
    Write(i32),
    /// Release the file that held the bytes.
    ReleaseSource,
    /// Close this descriptor.
    CloseTarget(i32),
    /// The writing is over.
    Returned(Result<(), Error>),
}

/// The first failure among the replies, or success where there is none.
pub open spec fn first_failure(replies: Seq<StepReply>) -> Result<(), Error>
    decreases replies.len(),
{
    if replies.len() == 0 {
        Ok(())
    } else if replies[0] is Err {
        replies[0]
    } else {
        first_failure(replies.drop_first())
    }
}

/// The number of steps after the opening: the write, the release of the
/// source where there is one, and the closing of the descriptor.
pub open spec fn write_steps(has_source: bool) -> nat {
    if has_source {
        3
    } else {
        2
    }
}

/// Where the writing stands once the descriptor is open: every step is
/// performed whether or not an earlier one failed, so that what was
/// acquired is released on every path, and the result is the first
/// failure.
pub open spec fn write_progress(has_source: bool, fd: i32, replies: Seq<StepReply>) -> WriteProgress {
    if replies.len() == 0 {
        WriteProgress::Write(fd)
    } else if has_source && replies.len() == 1 {
        WriteProgress::ReleaseSource
    } else if replies.len() < write_steps(has_source) {
        WriteProgress::CloseTarget(fd)
    } else {
        WriteProgress::Returned(first_failure(replies.take(write_steps(has_source) as int)))
    }
}

/// Where the setting of the host name stands.
pub open spec fn hostname_progress(
    target: Option<NumberReply<i32>>,
    source: Option<bool>,
    replies: Seq<StepReply>,
) -> WriteProgress {
    match target {
        None => WriteProgress::OpenTarget,
        Some(Err(code)) => WriteProgress::Returned(Err(Error::Errno(code))),
        Some(Ok(fd)) => match source {
            None => WriteProgress::OpenSource,
            Some(has_source) => write_progress(has_source, fd, replies),
        },
    }
}

/// Where the seeding of the random pool stands: once the pool is open the
/// seed is written and the descriptor closed, whether or not the write
/// succeeded, and the result is the first failure.
pub open spec fn seed_progress(target: Option<NumberReply<i32>>, replies: Seq<StepReply>) -> SeedProgress {
    match target {
        None => SeedProgress::OpenTarget,
        Some(Err(code)) => SeedProgress::Returned(Err(Error::Errno(code))),
        Some(Ok(fd)) => if replies.len() == 0 {
            SeedProgress::Write(fd)
        } else if replies.len() == 1 {
            SeedProgress::CloseTarget(fd)
        } else {
            SeedProgress::Returned(first_failure(replies.take(2)))
        },
    }
}

fn first_failure_among(replies: &Vec<StepReply>, steps: usize) -> (result: Result<(), Error>)
    requires
        steps <= replies@.len(),
    ensures
        result == first_failure(replies@.take(steps as int)),
{
    let ghost taken = replies@.take(steps as int);
    let mut i: usize = 0;
    proof {
        assert(taken.skip(0) =~= taken);
    }
    while i < steps
        invariant
            i <= steps <= replies@.len(),
            taken == replies@.take(steps as int),
            first_failure(taken) == first_failure(taken.skip(i as int)),
        decreases steps - i,
    {
        proof {
            assert(taken.skip(i as int).drop_first() =~= taken.skip(i as int + 1));
            assert(taken.skip(i as int)[0] == replies@[i as int]);
        }
        match replies[i] {
            Err(error) => {
                return Err(error);
            },
            Ok(_) => {},
        }
        i += 1;
    }
    proof {
        assert(taken.skip(i as int).len() == 0);
    }
    Ok(())
}

fn write_to_descriptor(has_source: bool, fd: i32, replies: &Vec<StepReply>) -> (progress:
    WriteProgress)
    ensures
        progress == write_progress(has_source, fd, replies@),
{
    let steps: usize = if has_source {
        3
    } else {
        2
    };
    if replies.len() == 0 {
        WriteProgress::Write(fd)
    } else if has_source && replies.len() == 1 {
        WriteProgress::ReleaseSource
    } else if replies.len() < steps {
        WriteProgress::CloseTarget(fd)
    } else {
        WriteProgress::Returned(first_failure_among(replies, steps))
    }
}

/// Sets the host name: opens the kernel's host name file, takes the name
/// from the configuration where that can be opened and the default name
/// otherwise, writes it, and releases what was opened.
///
/// `target` is the reply to the opening of the kernel file, `source` says
/// whether the configuration could be opened, and `replies` holds the
/// replies to the steps after that.
pub fn set_hostname(
    target: Option<NumberReply<i32>>,
    source: Option<bool>,
    replies: &Vec<StepReply>,
) -> (progress: WriteProgress)
    ensures
        progress == hostname_progress(target, source, replies@),
{
    match target {
        None => WriteProgress::OpenTarget,
        Some(Err(code)) => WriteProgress::Returned(Err(Error::Errno(code))),
        Some(Ok(fd)) => match source {
            None => WriteProgress::OpenSource,
            Some(has_source) => write_to_descriptor(has_source, fd, replies),
        },
    }
}

/// Seeds the kernel's random pool: opens it, writes the seed and closes
/// it.
pub fn seed_urandom(target: Option<NumberReply<i32>>, replies: &Vec<StepReply>) -> (progress:
    SeedProgress)
    ensures
        progress == seed_progress(target, replies@),
{
    match target {
        None => SeedProgress::OpenTarget,
        Some(Err(code)) => SeedProgress::Returned(Err(Error::Errno(code))),
        Some(Ok(fd)) => {
            if replies.len() == 0 {
                SeedProgress::Write(fd)
            } else if replies.len() == 1 {
                SeedProgress::CloseTarget(fd)
            } else {
                SeedProgress::Returned(first_failure_among(replies, 2))
            }
        },
    }
}

/// A descriptor that was opened is closed on every path: whatever the
/// write and the release replied, the closing is asked for before the
/// writing returns.
pub proof fn lemma_descriptor_is_always_closed(
    has_source: bool,
    fd: i32,
    replies: Seq<StepReply>,
)
    requires
        replies.len() == write_steps(has_source) - 1,
    ensures
        write_progress(has_source, fd, replies) == WriteProgress::CloseTarget(fd),
        forall|shorter: Seq<StepReply>|
            shorter.len() < write_steps(has_source) ==> !(#[trigger] write_progress(
                has_source,
                fd,
                shorter,
            ) is Returned),
{
}

/// The error to report about the deactivation of swap, if it failed. The
/// failure is reported and changes nothing else.
pub fn swap_failure(swap: &Vec<StepReply>) -> (failure: Option<Error>)
    ensures
        failure == (if swap@.len() > 0 && swap@[0] is Err {
            Some(swap@[0]->Err_0)
        } else {
            None
        }),
{
    if swap.len() == 0 {
        return None;
    }
    match swap[0] {
        Ok(_) => None,
        Err(error) => Some(error),
    }
}

/// Takes the system down: deactivates swap, then reads the live mount
/// table and unmounts, or remounts read-only, each of its entries.
///
/// `swap` holds the reply to the swap helper once it has run, `table` what
/// was read from the live mount table once it has been read, and `replies`
/// the replies to the teardown actions performed so far.
pub fn boot_down_system(swap: &Vec<StepReply>, table: &Option<MountTable>, replies: &Vec<
    StepReply,
>) -> (progress: ShutdownProgress)
    ensures
        progress@ == boot_down_progress(swap@, *table, replies@),
{
    proof {
        reveal_with_fuel(sequence_from, 3);
    }
    match turn_off_swap_partitions(swap) {
        HelperProgress::Run(command) => {
            return ShutdownProgress::TurnOffSwap(command);
        },
        HelperProgress::Returned(_) => {},
    }
    match table {
        None => ShutdownProgress::Enumerate,
        Some(Err(error)) => ShutdownProgress::Returned(Err(*error)),
        Some(Ok(entries)) => match unmount_all_filesystems(entries, replies) {
            Teardown::Unmount(entry) => ShutdownProgress::Unmount(entry),
            Teardown::RemountReadOnly(entry) => ShutdownProgress::RemountReadOnly(entry),
            Teardown::Finished => ShutdownProgress::Returned(Ok(())),
        },
    }
}

/// Whether swap could be deactivated or not, taking the system down goes
/// on in the same way.
pub proof fn lemma_swap_failure_does_not_stop_shutdown(
    outcome: StepReply,
    table: Option<MountTable>,
    replies: Seq<StepReply>,
)
    ensures
        boot_down_progress(seq![outcome], table, replies) == boot_down_progress(
            seq![Ok::<(), Error>(())],
            table,
            replies,
        ),
        !(boot_down_progress(seq![outcome], table, replies) is TurnOffSwap),
{
    match table {
        Some(Ok(entries)) => {
            let _ = teardown_of(entries@, replies);
        },
        _ => {},
    }
}

} // verus!
