//! The ordered mount sequence of boot and the best-effort unmount sequence
//! of shutdown.

use vstd::prelude::*;
use crate::error::Error;
use crate::exec::Command;
use crate::fs::Entry;
use crate::sequence::{sequence_of, sequence_progress, Sequence, StepReply};

verus! {

/// Mount flag: mount read-only.
pub const MS_RDONLY: u64 = 0x01;

/// Mount flag: ignore set-user-identifier bits.
pub const MS_NOSUID: u64 = 0x02;

/// Mount flag: no access to device nodes.
pub const MS_NODEV: u64 = 0x04;

/// Mount flag: no execution of programs.
pub const MS_NOEXEC: u64 = 0x08;

/// Mount flag: change an existing mount.
pub const MS_REMOUNT: u64 = 0x20;

/// Permission bits: read, write and execute for the owner.
pub const S_IRWXU: u32 = 0o700;

/// Permission bits: read for others.
pub const S_IROTH: u32 = 0o004;

/// Permission bits: execute for others.
pub const S_IXOTH: u32 = 0o001;

/// The byte of the path separator.
pub const SLASH: u8 = 0x2f;

/// The number of pseudo-filesystems mounted at boot.
pub const PSEUDO_FILESYSTEMS: usize = 4;

/// The number of directories created at boot.
pub const RUNLEVEL_DIRECTORIES: usize = 3;

/// The number of helpers run at boot.
pub const BOOT_HELPERS: usize = 3;

/// The number of steps of the boot sequence.
pub const BOOT_STEPS: usize = 10;

/// One filesystem to attach.
#[derive(Clone, Copy, Debug, PartialEq, Eq)]
pub struct MountEntry {
    /// The source label.
    pub source: &'static str,
    /// The path to mount on.
    pub target: &'static str,
    /// The filesystem type.
    pub fstype: &'static str,
    /// The mount flags.
    pub flags: u64,
    /// The data string handed to the filesystem, if any.
    pub data: Option<&'static str>,
}

/// A mount table entry as contracts see it.
pub struct MountEntryView {
    pub source: Seq<char>,
    pub target: Seq<char>,
    pub fstype: Seq<char>,
    pub flags: u64,
    pub data: Option<Seq<char>>,
}

impl View for MountEntry {
    type V = MountEntryView;

    open spec fn view(&self) -> MountEntryView {
        MountEntryView {
            source: self.source@,
            target: self.target@,
            fstype: self.fstype@,
            flags: self.flags,
            data: match self.data {
                None => None,
                Some(text) => Some(text@),
            },
        }
    }
}

/// A directory to create.
#[derive(Clone, Copy, Debug, PartialEq, Eq)]
pub struct Directory {
    /// The path of the directory.
    pub path: &'static str,
    /// Its permission bits.
    pub mode: u32,
}

/// A directory as contracts see it.
pub struct DirectoryView {
    pub path: Seq<char>,
    pub mode: u32,
}

impl View for Directory {
    type V = DirectoryView;

    open spec fn view(&self) -> DirectoryView {
        DirectoryView { path: self.path@, mode: self.mode }
    }
}

/// One step of the boot sequence.
#[derive(Clone, Debug, PartialEq, Eq)]
pub enum BootStep {
    /// Attach a filesystem.
    Mount(MountEntry),
    /// Create a directory.
    MakeDirectory(Directory),
    /// Run a helper and wait for it.
    Run(Command),
}

/// A boot step as contracts see it.
pub enum BootStepView {
    Mount(MountEntryView),
    MakeDirectory(DirectoryView),
    Run(Seq<Seq<char>>),
}

impl View for BootStep {
    type V = BootStepView;

    open spec fn view(&self) -> BootStepView {
        match self {
            BootStep::Mount(entry) => BootStepView::Mount(entry@),
            BootStep::MakeDirectory(directory) => BootStepView::MakeDirectory(directory@),
            BootStep::Run(command) => BootStepView::Run(command@),
        }
    }
}

/// Where the mounting of the pseudo-filesystems stands.
#[derive(Clone, Copy, Debug, PartialEq, Eq)]
pub enum MountProgress {
    /// Attach this filesystem.
    Mount(MountEntry),
    /// The sequence is over.
    Returned(Result<(), Error>),
}

/// Where the creation of the directories stands.
#[derive(Clone, Copy, Debug, PartialEq, Eq)]
pub enum DirectoryProgress {
    /// Create this directory.
    MakeDirectory(Directory),
    /// The sequence is over.
    Returned(Result<(), Error>),
}

/// Where a sequence of helper runs stands.
#[derive(Debug, PartialEq, Eq)]
pub enum HelperProgress {
    /// Run this helper and wait for it.
    Run(Command),
    /// The sequence is over.
    Returned(Result<(), Error>),
}

/// Where the boot sequence stands.
#[derive(Debug, PartialEq, Eq)]
pub enum BootProgress {
    /// Perform this step.
    Perform(BootStep),
    /// The sequence is over.
    Returned(Result<(), Error>),
}

/// The permission bits of the directories created at boot.
pub open spec fn directory_mode() -> u32 {
    S_IRWXU | S_IXOTH | S_IROTH
}

/// The table of pseudo-filesystems, in mount order: process information,
/// kernel information, runtime state, device nodes.
pub open spec fn pseudo_filesystem(index: int) -> MountEntryView {
    if index == 0 {
        MountEntryView {
            source: "proc"@,
            target: "/proc"@,
            fstype: "proc"@,
            flags: MS_NOEXEC | MS_NOSUID | MS_NODEV,
            data: None,
        }
    } else if index == 1 {
        MountEntryView {
            source: "sys"@,
            target: "/sys"@,
            fstype: "sysfs"@,
            flags: MS_NOEXEC | MS_NOSUID | MS_NODEV,
            data: None,
        }
    } else if index == 2 {
        MountEntryView {
            source: "run"@,
            target: "/run"@,
            fstype: "tmpfs"@,
            flags: MS_NOSUID | MS_NODEV,
            data: Some("mode=0755"@),
        }
    } else {
        MountEntryView {
            source: "dev"@,
            target: "/dev"@,
            fstype: "devtmpfs"@,
            flags: MS_NOSUID,
            data: Some("mode=0755"@),
        }
    }
}

/// The directories created once the pseudo-filesystems are mounted, in
/// order: pseudo-terminals, shared memory, lock files.
pub open spec fn runlevel_directory(index: int) -> DirectoryView {
    DirectoryView {
        path: if index == 0 {
            "/dev/pts"@
        } else if index == 1 {
            "/dev/shm"@
        } else {
            "/run/lock"@
        },
        mode: directory_mode(),
    }
}

/// The helpers run at the end of boot, in order: remount the root
/// filesystem read-write, mount everything in the static mount table,
/// activate every swap area.
pub open spec fn boot_helper(index: int) -> Seq<Seq<char>> {
    if index == 0 {
        seq!["/usr/bin/mount"@, "remount,rw"@, "/"@]
    } else if index == 1 {
        seq!["/usr/bin/mount"@, "-a"@]
    } else {
        seq!["/usr/bin/swapon"@, "-a"@]
    }
}

/// The helper that deactivates every swap area.
pub open spec fn swapoff_helper() -> Seq<Seq<char>> {
    seq!["/usr/bin/swapoff"@, "-a"@]
}

/// The steps of the boot sequence: the mounts, then the directories, then
/// the helpers.
pub open spec fn boot_step(index: int) -> BootStepView {
    if index < PSEUDO_FILESYSTEMS {
        BootStepView::Mount(pseudo_filesystem(index))
    } else if index < PSEUDO_FILESYSTEMS + RUNLEVEL_DIRECTORIES {
        BootStepView::MakeDirectory(runlevel_directory(index - PSEUDO_FILESYSTEMS))
    } else {
        BootStepView::Run(boot_helper(index - PSEUDO_FILESYSTEMS - RUNLEVEL_DIRECTORIES))
    }
}

/// What a mount sequence does next, as contracts see it.
pub enum MountProgressView {
    Mount(MountEntryView),
    Returned(Result<(), Error>),
}

/// What a directory sequence does next, as contracts see it.
pub enum DirectoryProgressView {
    MakeDirectory(DirectoryView),
    Returned(Result<(), Error>),
}

/// What a helper sequence does next, as contracts see it.
pub enum HelperProgressView {
    Run(Seq<Seq<char>>),
    Returned(Result<(), Error>),
}

/// What the boot sequence does next, as contracts see it.
pub enum BootProgressView {
    Perform(BootStepView),
    Returned(Result<(), Error>),
}

impl View for MountProgress {
    type V = MountProgressView;

    open spec fn view(&self) -> MountProgressView {
        match self {
            MountProgress::Mount(entry) => MountProgressView::Mount(entry@),
            MountProgress::Returned(result) => MountProgressView::Returned(*result),
        }
    }
}

impl View for DirectoryProgress {
    type V = DirectoryProgressView;

    open spec fn view(&self) -> DirectoryProgressView {
        match self {
            DirectoryProgress::MakeDirectory(directory) => DirectoryProgressView::MakeDirectory(
                directory@,
            ),
            DirectoryProgress::Returned(result) => DirectoryProgressView::Returned(*result),
        }
    }
}

impl View for HelperProgress {
    type V = HelperProgressView;

    open spec fn view(&self) -> HelperProgressView {
        match self {
            HelperProgress::Run(command) => HelperProgressView::Run(command@),
            HelperProgress::Returned(result) => HelperProgressView::Returned(*result),
        }
    }
}

impl View for BootProgress {
    type V = BootProgressView;

    open spec fn view(&self) -> BootProgressView {
        match self {
            BootProgress::Perform(step) => BootProgressView::Perform(step@),
            BootProgress::Returned(result) => BootProgressView::Returned(*result),
        }
    }
}

/// Where the mounting of the pseudo-filesystems stands after the replies:
/// each of the four is attempted, in table order, whatever the replies
/// before it were.
pub open spec fn pseudo_progress(replies: Seq<StepReply>) -> MountProgressView {
    if replies.len() < PSEUDO_FILESYSTEMS {
        MountProgressView::Mount(pseudo_filesystem(replies.len() as int))
    } else {
        MountProgressView::Returned(Ok(()))
    }
}

/// The number of directories that can be created: the two under the device
/// filesystem where that is mounted, the one under the runtime filesystem
/// where that is mounted.
pub open spec fn directories_due(run_mounted: bool, dev_mounted: bool) -> int {
    (if dev_mounted {
        2int
    } else {
        0int
    }) + (if run_mounted {
        1int
    } else {
        0int
    })
}

/// The table index of the directory that is created as number `k` of those
/// that can be created.
pub open spec fn directory_due(dev_mounted: bool, k: int) -> int {
    if dev_mounted {
        k
    } else {
        k + 2
    }
}

/// Where the creation of the directories stands after the replies: the
/// directories whose filesystem is mounted are created in table order,
/// whatever the replies before were; a directory whose filesystem could
/// not be mounted is left out.
pub open spec fn runlevel_progress(
    run_mounted: bool,
    dev_mounted: bool,
    replies: Seq<StepReply>,
) -> DirectoryProgressView {
    if replies.len() < directories_due(run_mounted, dev_mounted) {
        DirectoryProgressView::MakeDirectory(
            runlevel_directory(directory_due(dev_mounted, replies.len() as int)),
        )
    } else {
        DirectoryProgressView::Returned(Ok(()))
    }
}

/// Where the running of the boot helpers stands after the replies: each of
/// the three is run, in table order, whatever the replies before it were.
pub open spec fn helpers_progress(replies: Seq<StepReply>) -> HelperProgressView {
    if replies.len() < BOOT_HELPERS {
        HelperProgressView::Run(boot_helper(replies.len() as int))
    } else {
        HelperProgressView::Returned(Ok(()))
    }
}

/// The index, in the table of boot steps, of the step that is due after
/// the first `answered` replies; the number of steps once none is left.
/// No failure ends the sequence: the four mounts are all attempted, then
/// the directories whose filesystem is mounted, then the three helpers.
pub open spec fn boot_step_at(replies: Seq<StepReply>, answered: int) -> int {
    if answered < PSEUDO_FILESYSTEMS {
        answered
    } else {
        let dev_mounted = replies[3] is Ok;
        let directories = directories_due(replies[2] is Ok, dev_mounted);
        if answered < PSEUDO_FILESYSTEMS + directories {
            PSEUDO_FILESYSTEMS + directory_due(dev_mounted, answered - PSEUDO_FILESYSTEMS)
        } else if answered < PSEUDO_FILESYSTEMS + directories + BOOT_HELPERS {
            PSEUDO_FILESYSTEMS + RUNLEVEL_DIRECTORIES + (answered - PSEUDO_FILESYSTEMS
                - directories)
        } else {
            BOOT_STEPS as int
        }
    }
}

/// Where the boot sequence stands after the replies to the steps performed
/// so far.
pub open spec fn boot_progress(replies: Seq<StepReply>) -> BootProgressView {
    let step = boot_step_at(replies, replies.len() as int);
    if step < BOOT_STEPS {
        BootProgressView::Perform(boot_step(step))
    } else {
        BootProgressView::Returned(Ok(()))
    }
}

/// What is worth telling the operator about a step of the boot sequence.
#[derive(Clone, Copy, Debug, PartialEq, Eq, Structural)]
pub struct BootDiagnostic {
    /// The index of the failed step in the table of boot steps.
    pub step: usize,
    /// Why it failed.
    pub error: Error,
}

/// The diagnostic owed for the last of the replies: the step it answers
/// and its error, where it is a failure.
pub open spec fn boot_diagnostic_of(replies: Seq<StepReply>) -> Option<BootDiagnostic> {
    if replies.len() > 0 && replies.last() is Err && boot_step_at(replies, replies.len() - 1)
        < BOOT_STEPS {
        Some(
            BootDiagnostic {
                step: boot_step_at(replies, replies.len() - 1) as usize,
                error: replies.last()->Err_0,
            },
        )
    } else {
        None
    }
}

/// Where the deactivation of swap stands after the replies.
pub open spec fn swapoff_progress(replies: Seq<StepReply>) -> HelperProgressView {
    match sequence_of(replies, 1) {
        Sequence::Next(step) => HelperProgressView::Run(swapoff_helper()),
        Sequence::Failed(error) => HelperProgressView::Returned(Err(error)),
        Sequence::Complete => HelperProgressView::Returned(Ok(())),
    }
}

/// The entry of the table of pseudo-filesystems at an index.
pub fn pseudo_filesystem_entry(index: usize) -> (entry: MountEntry)
    ensures
        entry@ == pseudo_filesystem(index as int),
{
    if index == 0 {
        MountEntry {
            source: "proc",
            target: "/proc",
            fstype: "proc",
            flags: MS_NOEXEC | MS_NOSUID | MS_NODEV,
            data: None,
        }
    } else if index == 1 {
        MountEntry {
            source: "sys",
            target: "/sys",
            fstype: "sysfs",
            flags: MS_NOEXEC | MS_NOSUID | MS_NODEV,
            data: None,
        }
    } else if index == 2 {
        MountEntry {
            source: "run",
            target: "/run",
            fstype: "tmpfs",
            flags: MS_NOSUID | MS_NODEV,
            data: Some("mode=0755"),
        }
    } else {
        MountEntry {
            source: "dev",
            target: "/dev",
            fstype: "devtmpfs",
            flags: MS_NOSUID,
            data: Some("mode=0755"),
        }
    }
}

/// The directory created at an index of the directory sequence.
pub fn runlevel_directory_entry(index: usize) -> (directory: Directory)
    ensures
        directory@ == runlevel_directory(index as int),
{
    let mode: u32 = S_IRWXU | S_IXOTH | S_IROTH;
    if index == 0 {
        Directory { path: "/dev/pts", mode }
    } else if index == 1 {
        Directory { path: "/dev/shm", mode }
    } else {
        Directory { path: "/run/lock", mode }
    }
}

/// The helper run at an index of the helper sequence.
pub fn boot_helper_command(index: usize) -> (command: Command)
    ensures
        command@ == boot_helper(index as int),
{
    let mut argv: Vec<&'static str> = Vec::new();
    if index == 0 {
        argv.push("/usr/bin/mount");
        argv.push("remount,rw");
        argv.push("/");
    } else if index == 1 {
        argv.push("/usr/bin/mount");
        argv.push("-a");
    } else {
        argv.push("/usr/bin/swapon");
        argv.push("-a");
    }
    let command = Command { argv };
    assert(command@ =~= boot_helper(index as int));
    command
}

/// The helper that deactivates every swap area.
pub fn swapoff_command() -> (command: Command)
    ensures
        command@ == swapoff_helper(),
{
    let mut argv: Vec<&'static str> = Vec::new();
    argv.push("/usr/bin/swapoff");
    argv.push("-a");
    let command = Command { argv };
    assert(command@ =~= swapoff_helper());
    command
}

/// Mounts the four pseudo-filesystems in table order. A mount that fails
/// is reported and the next one is attempted all the same.
pub fn mount_pseudo_filesystems(replies: &Vec<StepReply>) -> (progress: MountProgress)
    ensures
        progress@ == pseudo_progress(replies@),
{
    if replies.len() < PSEUDO_FILESYSTEMS {
        MountProgress::Mount(pseudo_filesystem_entry(replies.len()))
    } else {
        MountProgress::Returned(Ok(()))
    }
}

/// Creates the directories that live on the freshly mounted filesystems,
/// in table order. A directory is created only where its filesystem is
/// mounted, so that none lands on the root filesystem by mistake; a
/// creation that fails is reported and the next one is attempted all the
/// same.
pub fn remaining_filesystem_runlevel(
    run_mounted: bool,
    dev_mounted: bool,
    replies: &Vec<StepReply>,
) -> (progress: DirectoryProgress)
    ensures
        progress@ == runlevel_progress(run_mounted, dev_mounted, replies@),
{
    let under_dev: usize = if dev_mounted {
        2
    } else {
        0
    };
    let under_run: usize = if run_mounted {
        1
    } else {
        0
    };
    if replies.len() < under_dev + under_run {
        let index: usize = if dev_mounted {
            replies.len()
        } else {
            replies.len() + 2
        };
        DirectoryProgress::MakeDirectory(runlevel_directory_entry(index))
    } else {
        DirectoryProgress::Returned(Ok(()))
    }
}

/// The step of the boot sequence at an index of its table.
pub fn boot_step_entry(index: usize) -> (step: BootStep)
    ensures
        step@ == boot_step(index as int),
{
    if index < PSEUDO_FILESYSTEMS {
        BootStep::Mount(pseudo_filesystem_entry(index))
    } else if index < PSEUDO_FILESYSTEMS + RUNLEVEL_DIRECTORIES {
        BootStep::MakeDirectory(runlevel_directory_entry(index - PSEUDO_FILESYSTEMS))
    } else {
        BootStep::Run(boot_helper_command(index - PSEUDO_FILESYSTEMS - RUNLEVEL_DIRECTORIES))
    }
}

fn boot_step_index(replies: &Vec<StepReply>, answered: usize) -> (step: usize)
    requires
        answered <= replies@.len(),
    ensures
        step == boot_step_at(replies@, answered as int),
        step <= BOOT_STEPS,
        answered < PSEUDO_FILESYSTEMS + BOOT_HELPERS ==> step < BOOT_STEPS,
        answered >= BOOT_STEPS ==> step == BOOT_STEPS,
{
    if answered < PSEUDO_FILESYSTEMS {
        return answered;
    }
    let dev_mounted = replies[3].is_ok();
    let run_mounted = replies[2].is_ok();
    let under_dev: usize = if dev_mounted {
        2
    } else {
        0
    };
    let under_run: usize = if run_mounted {
        1
    } else {
        0
    };
    let directories: usize = under_dev + under_run;
    let after_mounts: usize = answered - PSEUDO_FILESYSTEMS;
    if after_mounts < directories {
        if dev_mounted {
            PSEUDO_FILESYSTEMS + after_mounts
        } else {
            PSEUDO_FILESYSTEMS + after_mounts + 2
        }
    } else if after_mounts - directories < BOOT_HELPERS {
        PSEUDO_FILESYSTEMS + RUNLEVEL_DIRECTORIES + (after_mounts - directories)
    } else {
        BOOT_STEPS
    }
}

/// Runs the three boot helpers in table order, each waited for. A helper
/// that could not be launched or waited for is reported and the next one
/// is run all the same.
pub fn run_boot_helpers(replies: &Vec<StepReply>) -> (progress: HelperProgress)
    ensures
        progress@ == helpers_progress(replies@),
{
    if replies.len() < BOOT_HELPERS {
        HelperProgress::Run(boot_helper_command(replies.len()))
    } else {
        HelperProgress::Returned(Ok(()))
    }
}

fn replies_from(replies: &Vec<StepReply>, from: usize) -> (tail: Vec<StepReply>)
    requires
        from <= replies@.len(),
    ensures
        tail@ == replies@.skip(from as int),
{
    let mut tail: Vec<StepReply> = Vec::new();
    let mut i: usize = from;
    while i < replies.len()
        invariant
            from <= i <= replies@.len(),
            tail@ == replies@.subrange(from as int, i as int),
        decreases replies@.len() - i,
    {
        tail.push(replies[i]);
        proof {
            assert(tail@ =~= replies@.subrange(from as int, i as int + 1));
        }
        i += 1;
    }
    proof {
        assert(tail@ =~= replies@.skip(from as int));
    }
    tail
}

/// The boot sequence of the mount orchestrator: the four
/// pseudo-filesystems, the directories on them, then the three helpers, in
/// this order.
///
/// `replies` holds the replies to the steps performed so far. No failure
/// ends the sequence: a step that failed is reported and the next step is
/// taken, except that a directory is not created where the filesystem it
/// lives on could not be mounted. After the last step the sequence
/// returns success.
pub fn mount_filesystem(replies: &Vec<StepReply>) -> (progress: BootProgress)
    ensures
        progress@ == boot_progress(replies@),
        progress matches BootProgress::Returned(result) ==> result is Ok,
        replies@.len() < PSEUDO_FILESYSTEMS + BOOT_HELPERS ==> progress is Perform,
        replies@.len() >= BOOT_STEPS ==> progress is Returned,
{
    if replies.len() < PSEUDO_FILESYSTEMS {
        return match mount_pseudo_filesystems(replies) {
            MountProgress::Mount(entry) => BootProgress::Perform(BootStep::Mount(entry)),
            MountProgress::Returned(result) => BootProgress::Returned(result),
        };
    }
    let run_mounted = replies[2].is_ok();
    let dev_mounted = replies[3].is_ok();
    let after_mounts = replies_from(replies, PSEUDO_FILESYSTEMS);
    match remaining_filesystem_runlevel(run_mounted, dev_mounted, &after_mounts) {
        DirectoryProgress::MakeDirectory(directory) => {
            return BootProgress::Perform(BootStep::MakeDirectory(directory));
        },
        DirectoryProgress::Returned(_) => {},
    }
    let under_dev: usize = if dev_mounted {
        2
    } else {
        0
    };
    let under_run: usize = if run_mounted {
        1
    } else {
        0
    };
    let after_directories = replies_from(&after_mounts, under_dev + under_run);
    match run_boot_helpers(&after_directories) {
        HelperProgress::Run(command) => BootProgress::Perform(BootStep::Run(command)),
        HelperProgress::Returned(result) => BootProgress::Returned(result),
    }
}

/// What to print about the last of the replies to the boot sequence, if
/// anything: every failed step owes a diagnostic.
pub fn boot_diagnostic(replies: &Vec<StepReply>) -> (diagnostic: Option<BootDiagnostic>)
    ensures
        diagnostic == boot_diagnostic_of(replies@),
{
    if replies.len() == 0 {
        return None;
    }
    let last = replies.len() - 1;
    match replies[last] {
        Ok(_) => None,
        Err(error) => {
            let step = boot_step_index(replies, last);
            if step < BOOT_STEPS {
                Some(BootDiagnostic { step, error })
            } else {
                None
            }
        },
    }
}

/// A directory is never created on a filesystem that could not be mounted:
/// after a failed mount of the device filesystem neither of its two
/// directories is ever due, and after a failed mount of the runtime
/// filesystem its directory is never due.
pub proof fn lemma_directories_wait_for_their_filesystem(replies: Seq<StepReply>, answered: int)
    requires
        PSEUDO_FILESYSTEMS <= answered <= replies.len(),
    ensures
        replies[3] is Err ==> boot_step_at(replies, answered) != 4 && boot_step_at(
            replies,
            answered,
        ) != 5,
        replies[2] is Err ==> boot_step_at(replies, answered) != 6,
{
}

/// No failure ends the boot sequence: whatever the replies were, the four
/// mounts are all attempted, each step due lies after the one before it,
/// the three helpers are all attempted, and the sequence is over only
/// after them.
pub proof fn lemma_boot_goes_on_after_a_failure(replies: Seq<StepReply>, answered: int)
    requires
        0 <= answered < replies.len(),
    ensures
        answered < PSEUDO_FILESYSTEMS ==> boot_step_at(replies, answered) == answered,
        boot_step_at(replies, answered) < BOOT_STEPS ==> boot_step_at(replies, answered + 1)
            > boot_step_at(replies, answered),
        answered < PSEUDO_FILESYSTEMS + BOOT_HELPERS ==> boot_step_at(replies, answered)
            < BOOT_STEPS,
        boot_step_at(replies, answered) == 7 ==> boot_step_at(replies, answered + 1) == 8
            && boot_step_at(replies, answered + 2) == 9,
{
}

/// While every step succeeds the boot sequence takes the steps of its
/// table one by one, and the sequences of the mounts and of the
/// directories take the same steps.
pub proof fn lemma_boot_steps_follow_the_tables(replies: Seq<StepReply>)
    requires
        forall|i: int| 0 <= i < replies.len() ==> (#[trigger] replies[i]) is Ok,
    ensures
        replies.len() < BOOT_STEPS ==> boot_progress(replies) == BootProgressView::Perform(
            boot_step(replies.len() as int),
        ),
        replies.len() >= BOOT_STEPS ==> boot_progress(replies) == BootProgressView::Returned(
            Ok(()),
        ),
        replies.len() < 4 ==> pseudo_progress(replies) == MountProgressView::Mount(
            pseudo_filesystem(replies.len() as int),
        ),
        4 <= replies.len() < 7 ==> runlevel_progress(true, true, replies.skip(4))
            == DirectoryProgressView::MakeDirectory(runlevel_directory(replies.len() - 4)),
        7 <= replies.len() < 10 ==> helpers_progress(replies.skip(7)) == HelperProgressView::Run(
            boot_helper(replies.len() - 7),
        ),
{
}

/// Deactivates every swap area through the helper.
pub fn turn_off_swap_partitions(replies: &Vec<StepReply>) -> (progress: HelperProgress)
    ensures
        progress@ == swapoff_progress(replies@),
{
    match sequence_progress(replies, 1) {
        Sequence::Next(_) => HelperProgress::Run(swapoff_command()),
        Sequence::Failed(error) => HelperProgress::Returned(Err(error)),
        Sequence::Complete => HelperProgress::Returned(Ok(())),
    }
}

/// What the teardown of the live mounts does next. The index is that of
/// the entry concerned, in the order of enumeration.
#[derive(Clone, Copy, Debug, PartialEq, Eq, Structural)]
pub enum Teardown {
    /// Unmount the entry.
    Unmount(usize),
    /// Remount the entry read-only.
    RemountReadOnly(usize),
    /// Every entry has been dealt with.
    Finished,
}

/// What is worth telling the operator about a reply during teardown.
#[derive(Clone, Copy, Debug, PartialEq, Eq, Structural)]
pub enum TeardownDiagnostic {
    /// The entry could not be unmounted.
    UnmountFailed { entry: usize, error: Error },
    /// The entry could not be remounted read-only.
    RemountFailed { entry: usize, error: Error },
}

/// The path of the root filesystem.
pub open spec fn root_path() -> Seq<u8> {
    seq![SLASH]
}

/// Whether the entry is the root filesystem.
pub open spec fn is_root_entry(entry: Entry) -> bool {
    entry@ == root_path()
}

/// The flags of a read-only remount.
pub open spec fn remount_read_only_flags() -> u64 {
    MS_REMOUNT | MS_RDONLY
}

/// What teardown does first with the entry at `index`: the root filesystem
/// is remounted read-only, any other entry is unmounted, and past the last
/// entry teardown is finished.
pub open spec fn teardown_begin(entries: Seq<Entry>, index: int) -> Teardown {
    if index >= entries.len() || index < 0 {
        Teardown::Finished
    } else if is_root_entry(entries[index]) {
        Teardown::RemountReadOnly(index as usize)
    } else {
        Teardown::Unmount(index as usize)
    }
}

/// What teardown does after the reply to `action`: a failed unmount falls
/// back to a read-only remount of the same entry; everything else, failed
/// or not, moves on to the next entry.
pub open spec fn teardown_after(entries: Seq<Entry>, action: Teardown, reply: StepReply) -> Teardown {
    match action {
        Teardown::Unmount(entry) => if reply is Err {
            Teardown::RemountReadOnly(entry)
        } else {
            teardown_begin(entries, entry + 1)
        },
        Teardown::RemountReadOnly(entry) => teardown_begin(entries, entry + 1),
        Teardown::Finished => Teardown::Finished,
    }
}

/// What teardown does next after the replies received so far.
pub open spec fn teardown_of(entries: Seq<Entry>, replies: Seq<StepReply>) -> Teardown
    decreases replies.len(),
{
    if replies.len() == 0 {
        teardown_begin(entries, 0)
    } else {
        teardown_after(entries, teardown_of(entries, replies.drop_last()), replies.last())
    }
}

/// The diagnostic owed for the reply to an action.
pub open spec fn teardown_diagnostic_of(action: Teardown, reply: StepReply) -> Option<
    TeardownDiagnostic,
> {
    match (action, reply) {
        (Teardown::Unmount(entry), Err(error)) => Some(
            TeardownDiagnostic::UnmountFailed { entry, error },
        ),
        (Teardown::RemountReadOnly(entry), Err(error)) => Some(
            TeardownDiagnostic::RemountFailed { entry, error },
        ),
        _ => None,
    }
}

/// Whether an action is one that teardown can ask for on these entries: it
/// names an entry of the table, and it never unmounts the root filesystem.
pub open spec fn teardown_action_fits(entries: Seq<Entry>, action: Teardown) -> bool {
    match action {
        Teardown::Unmount(entry) => entry < entries.len() && !is_root_entry(entries[entry as int]),
        Teardown::RemountReadOnly(entry) => entry < entries.len(),
        Teardown::Finished => true,
    }
}

/// Whether the path is that of the root filesystem.
pub fn is_root(path: &Vec<u8>) -> (root: bool)
    ensures
        root == (path@ == root_path()),
{
    if path.len() == 1 && path[0] == SLASH {
        assert(path@ =~= root_path());
        true
    } else {
        false
    }
}

/// The flags handed to the read-only remount.
pub fn remount_flags() -> (flags: u64)
    ensures
        flags == remount_read_only_flags(),
{
    MS_REMOUNT | MS_RDONLY
}

/// What teardown does first with the entry at `index`.
pub fn teardown_first_action(entries: &Vec<Entry>, index: usize) -> (action: Teardown)
    ensures
        action == teardown_begin(entries@, index as int),
        teardown_action_fits(entries@, action),
{
    if index >= entries.len() {
        Teardown::Finished
    } else if is_root(entries[index].path()) {
        Teardown::RemountReadOnly(index)
    } else {
        Teardown::Unmount(index)
    }
}

/// What teardown does after the reply to an action.
pub fn teardown_next_action(entries: &Vec<Entry>, action: Teardown, reply: &StepReply) -> (next:
    Teardown)
    ensures
        next == teardown_after(entries@, action, *reply),
        teardown_action_fits(entries@, action) ==> teardown_action_fits(entries@, next),
{
    let count = entries.len();
    match action {
        Teardown::Unmount(entry) => {
            if reply.is_err() {
                Teardown::RemountReadOnly(entry)
            } else if entry >= count {
                Teardown::Finished
            } else {
                teardown_first_action(entries, entry + 1)
            }
        },
        Teardown::RemountReadOnly(entry) => {
            if entry >= count {
                Teardown::Finished
            } else {
                teardown_first_action(entries, entry + 1)
            }
        },
        Teardown::Finished => Teardown::Finished,
    }
}

/// What to print about the reply to an action, if anything.
pub fn teardown_diagnostic(action: Teardown, reply: &StepReply) -> (diagnostic: Option<
    TeardownDiagnostic,
>)
    ensures
        diagnostic == teardown_diagnostic_of(action, *reply),
{
    match (action, reply) {
        (Teardown::Unmount(entry), Err(error)) => Some(
            TeardownDiagnostic::UnmountFailed { entry, error: *error },
        ),
        (Teardown::RemountReadOnly(entry), Err(error)) => Some(
            TeardownDiagnostic::RemountFailed { entry, error: *error },
        ),
        _ => None,
    }
}

/// Unmounts every entry of the live mount table, in the order of
/// enumeration, as far as that is possible.
///
/// `replies` holds the replies to the actions performed so far. The root
/// filesystem is remounted read-only and never unmounted; any other entry
/// is unmounted, and remounted read-only where that fails. No failure
/// keeps teardown from going on to the next entry.
pub fn unmount_all_filesystems(entries: &Vec<Entry>, replies: &Vec<StepReply>) -> (action: Teardown)
    ensures
        action == teardown_of(entries@, replies@),
        teardown_action_fits(entries@, action),
{
    let mut action = teardown_first_action(entries, 0);
    let mut i: usize = 0;
    proof {
        assert(replies@.take(0).len() == 0);
    }
    while i < replies.len()
        invariant
            i <= replies@.len(),
            action == teardown_of(entries@, replies@.take(i as int)),
            teardown_action_fits(entries@, action),
        decreases replies@.len() - i,
    {
        proof {
            let longer = replies@.take(i as int + 1);
            assert(longer.drop_last() =~= replies@.take(i as int));
            assert(longer.last() == replies@[i as int]);
        }
        action = teardown_next_action(entries, action, &replies[i]);
        i += 1;
    }
    proof {
        assert(replies@.take(i as int) =~= replies@);
    }
    action
}

/// One more reply moves teardown on by one decision.
pub proof fn lemma_teardown_step(entries: Seq<Entry>, replies: Seq<StepReply>, reply: StepReply)
    ensures
        teardown_of(entries, replies.push(reply)) == teardown_after(
            entries,
            teardown_of(entries, replies),
            reply,
        ),
{
    let longer = replies.push(reply);
    assert(longer.drop_last() =~= replies);
    assert(longer.last() == reply);
}

/// Whatever was replied, teardown only ever names entries of the table, and
/// it never asks to unmount the root filesystem.
pub proof fn lemma_root_is_never_unmounted(entries: Seq<Entry>, replies: Seq<StepReply>)
    requires
        entries.len() <= usize::MAX,
    ensures
        teardown_action_fits(entries, teardown_of(entries, replies)),
    decreases replies.len(),
{
    if replies.len() > 0 {
        lemma_root_is_never_unmounted(entries, replies.drop_last());
    }
}

/// When teardown comes to the root filesystem, the first thing it asks
/// for is the read-only remount of it.
pub proof fn lemma_root_is_remounted_read_only(entries: Seq<Entry>, index: int)
    requires
        0 <= index < entries.len(),
        entries.len() <= usize::MAX,
        is_root_entry(entries[index]),
    ensures
        teardown_begin(entries, index) == Teardown::RemountReadOnly(index as usize),
{
}

/// An unmount that fails, as it does for an entry that is no longer
/// mounted, falls back to the read-only remount of the same entry, and
/// after that remount, failed or not, teardown goes on with the next entry.
pub proof fn lemma_failed_unmount_falls_back(
    entries: Seq<Entry>,
    replies: Seq<StepReply>,
    entry: usize,
    error: Error,
    remount: StepReply,
)
    requires
        teardown_of(entries, replies) == Teardown::Unmount(entry),
    ensures
        teardown_of(entries, replies.push(Err(error))) == Teardown::RemountReadOnly(entry),
        teardown_of(entries, replies.push(Err(error)).push(remount)) == teardown_begin(
            entries,
            entry + 1,
        ),
{
    lemma_teardown_step(entries, replies, Err(error));
    lemma_teardown_step(entries, replies.push(Err(error)), remount);
}

/// How far teardown has come: two steps per entry, the unmount and the
/// remount.
pub open spec fn teardown_rank(entries: Seq<Entry>, action: Teardown) -> int {
    match action {
        Teardown::Unmount(entry) => 2 * entry,
        Teardown::RemountReadOnly(entry) => 2 * entry + 1,
        Teardown::Finished => 2 * (entries.len() as int),
    }
}

/// Teardown follows the order of enumeration and never goes back: each
/// reply, failed or not, takes it strictly further.
pub proof fn lemma_teardown_moves_forward(entries: Seq<Entry>, action: Teardown, reply: StepReply)
    requires
        entries.len() <= usize::MAX,
        teardown_action_fits(entries, action),
        action != Teardown::Finished,
    ensures
        teardown_rank(entries, teardown_after(entries, action, reply)) > teardown_rank(
            entries,
            action,
        ),
        teardown_action_fits(entries, teardown_after(entries, action, reply)),
{
}

/// No failure keeps teardown from reaching every entry: after two replies
/// for each entry, whatever they were, teardown is finished.
pub proof fn lemma_teardown_reaches_every_entry(entries: Seq<Entry>, replies: Seq<StepReply>)
    requires
        entries.len() <= usize::MAX,
    ensures
        teardown_action_fits(entries, teardown_of(entries, replies)),
        teardown_of(entries, replies) != Teardown::Finished ==> teardown_rank(
            entries,
            teardown_of(entries, replies),
        ) >= replies.len(),
        replies.len() >= 2 * entries.len() ==> teardown_of(entries, replies) == Teardown::Finished,
    decreases replies.len(),
{
    if replies.len() > 0 {
        let before = teardown_of(entries, replies.drop_last());
        lemma_teardown_reaches_every_entry(entries, replies.drop_last());
        if before != Teardown::Finished {
            lemma_teardown_moves_forward(entries, before, replies.last());
        }
    }
}

/// The pseudo-filesystems carry the restrictions that the boot sequence
/// promises: no execution and no device nodes on the two information
/// filesystems, no device nodes but execution on the runtime filesystem,
/// execution on the device filesystem, and no set-user-identifier bits on
/// any of them.
pub proof fn lemma_pseudo_filesystem_restrictions()
    ensures
        pseudo_filesystem(0).flags & MS_NOEXEC != 0 && pseudo_filesystem(0).flags & MS_NODEV != 0,
        pseudo_filesystem(1).flags & MS_NOEXEC != 0 && pseudo_filesystem(1).flags & MS_NODEV != 0,
        pseudo_filesystem(2).flags & MS_NOEXEC == 0 && pseudo_filesystem(2).flags & MS_NODEV != 0,
        pseudo_filesystem(3).flags & MS_NOEXEC == 0,
        forall|i: int| 0 <= i < 4 ==> (#[trigger] pseudo_filesystem(i)).flags & MS_NOSUID != 0,
        remount_read_only_flags() & MS_RDONLY != 0 && remount_read_only_flags() & MS_REMOUNT != 0,
{
    assert((8u64 | 2u64 | 4u64) & 8u64 != 0 && (8u64 | 2u64 | 4u64) & 4u64 != 0 && (8u64 | 2u64
        | 4u64) & 2u64 != 0) by (bit_vector);
    assert((2u64 | 4u64) & 8u64 == 0 && (2u64 | 4u64) & 4u64 != 0 && (2u64 | 4u64) & 2u64 != 0)
        by (bit_vector);
    assert(2u64 & 8u64 == 0 && 2u64 & 2u64 != 0) by (bit_vector);
    assert((0x20u64 | 1u64) & 1u64 != 0 && (0x20u64 | 1u64) & 0x20u64 != 0) by (bit_vector);
}

} // verus!
