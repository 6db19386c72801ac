use incipio::error::Error;
use incipio::exec::Command;
use incipio::fs::Entry;
use incipio::mount::{
    boot_diagnostic, boot_helper_command, boot_step_entry, is_root, mount_filesystem,
    mount_pseudo_filesystems, pseudo_filesystem_entry, remaining_filesystem_runlevel,
    remount_flags, run_boot_helpers, runlevel_directory_entry, swapoff_command,
    teardown_diagnostic,
    teardown_first_action, teardown_next_action, turn_off_swap_partitions,
    unmount_all_filesystems, BootDiagnostic, BootProgress, BootStep, Directory,
    DirectoryProgress, HelperProgress, MountEntry, MountProgress, Teardown, TeardownDiagnostic,
    MS_NODEV, MS_NOEXEC, MS_NOSUID, MS_RDONLY, MS_REMOUNT, S_IROTH, S_IRWXU, S_IXOTH,
};
use incipio::sequence::StepReply;
use nix::mount::MsFlags;
use nix::sys::stat::Mode;

fn entries_of(paths: &[&str]) -> Vec<Entry> {
    paths.iter().map(|path| Entry { mnt_dir: path.as_bytes().to_vec() }).collect()
}

fn command_of(argv: &[&'static str]) -> Command {
    Command { argv: argv.to_vec() }
}

#[test]
fn flags_match_the_system_values() {
    assert_eq!(MS_RDONLY, MsFlags::MS_RDONLY.bits() as u64);
    assert_eq!(MS_NOSUID, MsFlags::MS_NOSUID.bits() as u64);
    assert_eq!(MS_NODEV, MsFlags::MS_NODEV.bits() as u64);
    assert_eq!(MS_NOEXEC, MsFlags::MS_NOEXEC.bits() as u64);
    assert_eq!(MS_REMOUNT, MsFlags::MS_REMOUNT.bits() as u64);
    assert_eq!(S_IRWXU, Mode::S_IRWXU.bits() as u32);
    assert_eq!(S_IROTH, Mode::S_IROTH.bits() as u32);
    assert_eq!(S_IXOTH, Mode::S_IXOTH.bits() as u32);
    assert_eq!(remount_flags(), (MsFlags::MS_REMOUNT | MsFlags::MS_RDONLY).bits() as u64);
    assert_eq!(remount_flags(), 33);
}

#[test]
fn pseudo_filesystem_table() {
    assert_eq!(
        pseudo_filesystem_entry(0),
        MountEntry { source: "proc", target: "/proc", fstype: "proc", flags: 14, data: None }
    );
    assert_eq!(
        pseudo_filesystem_entry(1),
        MountEntry { source: "sys", target: "/sys", fstype: "sysfs", flags: 14, data: None }
    );
    assert_eq!(
        pseudo_filesystem_entry(2),
        MountEntry {
            source: "run",
            target: "/run",
            fstype: "tmpfs",
            flags: 6,
            data: Some("mode=0755"),
        }
    );
    assert_eq!(
        pseudo_filesystem_entry(3),
        MountEntry {
            source: "dev",
            target: "/dev",
            fstype: "devtmpfs",
            flags: 2,
            data: Some("mode=0755"),
        }
    );
}

#[test]
fn directory_table() {
    assert_eq!(runlevel_directory_entry(0), Directory { path: "/dev/pts", mode: 0o705 });
    assert_eq!(runlevel_directory_entry(1), Directory { path: "/dev/shm", mode: 0o705 });
    assert_eq!(runlevel_directory_entry(2), Directory { path: "/run/lock", mode: 0o705 });
}

#[test]
fn helper_table() {
    assert_eq!(boot_helper_command(0), command_of(&["/usr/bin/mount", "remount,rw", "/"]));
    assert_eq!(boot_helper_command(1), command_of(&["/usr/bin/mount", "-a"]));
    assert_eq!(boot_helper_command(2), command_of(&["/usr/bin/swapon", "-a"]));
    assert_eq!(swapoff_command(), command_of(&["/usr/bin/swapoff", "-a"]));
}

#[test]
fn pseudo_filesystems_are_mounted_in_order() {
    let mut replies: Vec<StepReply> = Vec::new();
    for index in 0..4 {
        assert_eq!(
            mount_pseudo_filesystems(&replies),
            MountProgress::Mount(pseudo_filesystem_entry(index))
        );
        replies.push(Ok(()));
    }
    assert_eq!(mount_pseudo_filesystems(&replies), MountProgress::Returned(Ok(())));
}

#[test]
fn failed_mount_does_not_stop_the_pseudo_filesystems() {
    let eperm = Error::Errno(nix::libc::EPERM);
    let mut replies: Vec<StepReply> = vec![Err(eperm)];
    assert_eq!(
        mount_pseudo_filesystems(&replies),
        MountProgress::Mount(pseudo_filesystem_entry(1))
    );
    replies.push(Err(eperm));
    assert_eq!(
        mount_pseudo_filesystems(&replies),
        MountProgress::Mount(pseudo_filesystem_entry(2))
    );
    replies.push(Ok(()));
    assert_eq!(
        mount_pseudo_filesystems(&replies),
        MountProgress::Mount(pseudo_filesystem_entry(3))
    );
    replies.push(Err(eperm));
    assert_eq!(mount_pseudo_filesystems(&replies), MountProgress::Returned(Ok(())));
}

#[test]
fn directories_are_created_in_order() {
    let mut replies: Vec<StepReply> = Vec::new();
    for index in 0..3 {
        assert_eq!(
            remaining_filesystem_runlevel(true, true, &replies),
            DirectoryProgress::MakeDirectory(runlevel_directory_entry(index))
        );
        replies.push(Ok(()));
    }
    assert_eq!(
        remaining_filesystem_runlevel(true, true, &replies),
        DirectoryProgress::Returned(Ok(()))
    );
    let eexist = Error::Errno(nix::libc::EEXIST);
    assert_eq!(
        remaining_filesystem_runlevel(true, true, &vec![Err(eexist)]),
        DirectoryProgress::MakeDirectory(runlevel_directory_entry(1))
    );
}

#[test]
fn directories_are_left_out_where_their_filesystem_is_missing() {
    let none: Vec<StepReply> = Vec::new();
    let one: Vec<StepReply> = vec![Ok(())];
    let two: Vec<StepReply> = vec![Ok(()), Ok(())];
    assert_eq!(
        remaining_filesystem_runlevel(true, false, &none),
        DirectoryProgress::MakeDirectory(Directory { path: "/run/lock", mode: 0o705 })
    );
    assert_eq!(
        remaining_filesystem_runlevel(true, false, &one),
        DirectoryProgress::Returned(Ok(()))
    );
    assert_eq!(
        remaining_filesystem_runlevel(false, true, &none),
        DirectoryProgress::MakeDirectory(Directory { path: "/dev/pts", mode: 0o705 })
    );
    assert_eq!(
        remaining_filesystem_runlevel(false, true, &one),
        DirectoryProgress::MakeDirectory(Directory { path: "/dev/shm", mode: 0o705 })
    );
    assert_eq!(
        remaining_filesystem_runlevel(false, true, &two),
        DirectoryProgress::Returned(Ok(()))
    );
    assert_eq!(
        remaining_filesystem_runlevel(false, false, &none),
        DirectoryProgress::Returned(Ok(()))
    );
}

#[test]
fn boot_sequence_with_every_step_succeeding() {
    let mut replies: Vec<StepReply> = Vec::new();
    let mut performed: Vec<BootStep> = Vec::new();
    loop {
        match mount_filesystem(&replies) {
            BootProgress::Perform(step) => {
                performed.push(step);
                replies.push(Ok(()));
            }
            BootProgress::Returned(result) => {
                assert_eq!(result, Ok(()));
                break;
            }
        }
    }
    let expected = vec![
        BootStep::Mount(pseudo_filesystem_entry(0)),
        BootStep::Mount(pseudo_filesystem_entry(1)),
        BootStep::Mount(pseudo_filesystem_entry(2)),
        BootStep::Mount(pseudo_filesystem_entry(3)),
        BootStep::MakeDirectory(runlevel_directory_entry(0)),
        BootStep::MakeDirectory(runlevel_directory_entry(1)),
        BootStep::MakeDirectory(runlevel_directory_entry(2)),
        BootStep::Run(command_of(&["/usr/bin/mount", "remount,rw", "/"])),
        BootStep::Run(command_of(&["/usr/bin/mount", "-a"])),
        BootStep::Run(command_of(&["/usr/bin/swapon", "-a"])),
    ];
    assert_eq!(performed, expected);
}

#[test]
fn directories_wait_for_the_device_filesystem() {
    let three: Vec<StepReply> = vec![Ok(()), Ok(()), Ok(())];
    assert_eq!(
        mount_filesystem(&three),
        BootProgress::Perform(BootStep::Mount(pseudo_filesystem_entry(3)))
    );
    let eperm = Error::Errno(nix::libc::EPERM);
    let mut replies: Vec<StepReply> = vec![Ok(()), Ok(()), Ok(()), Err(eperm)];
    assert_eq!(boot_diagnostic(&replies), Some(BootDiagnostic { step: 3, error: eperm }));
    assert_eq!(
        mount_filesystem(&replies),
        BootProgress::Perform(BootStep::MakeDirectory(runlevel_directory_entry(2)))
    );
    replies.push(Ok(()));
    assert_eq!(
        mount_filesystem(&replies),
        BootProgress::Perform(BootStep::Run(boot_helper_command(0)))
    );
}

#[test]
fn lock_directory_waits_for_the_runtime_filesystem() {
    let eperm = Error::Errno(nix::libc::EPERM);
    let mut replies: Vec<StepReply> = vec![Ok(()), Ok(()), Err(eperm), Ok(())];
    assert_eq!(
        mount_filesystem(&replies),
        BootProgress::Perform(BootStep::MakeDirectory(runlevel_directory_entry(0)))
    );
    replies.push(Ok(()));
    assert_eq!(
        mount_filesystem(&replies),
        BootProgress::Perform(BootStep::MakeDirectory(runlevel_directory_entry(1)))
    );
    replies.push(Ok(()));
    assert_eq!(
        mount_filesystem(&replies),
        BootProgress::Perform(BootStep::Run(boot_helper_command(0)))
    );
    let both: Vec<StepReply> = vec![Ok(()), Ok(()), Err(eperm), Err(eperm)];
    assert_eq!(
        mount_filesystem(&both),
        BootProgress::Perform(BootStep::Run(boot_helper_command(0)))
    );
}

#[test]
fn failed_proc_mount_is_reported_and_every_other_step_is_taken() {
    let eperm = Error::Errno(nix::libc::EPERM);
    let mut replies: Vec<StepReply> = Vec::new();
    let mut performed: Vec<BootStep> = Vec::new();
    let mut diagnostics: Vec<BootDiagnostic> = Vec::new();
    let result = loop {
        match mount_filesystem(&replies) {
            BootProgress::Perform(step) => {
                let failed = step == BootStep::Mount(pseudo_filesystem_entry(0));
                performed.push(step);
                replies.push(if failed { Err(eperm) } else { Ok(()) });
                if let Some(diagnostic) = boot_diagnostic(&replies) {
                    diagnostics.push(diagnostic);
                }
            }
            BootProgress::Returned(result) => break result,
        }
    };
    assert_eq!(result, Ok(()));
    assert_eq!(diagnostics, vec![BootDiagnostic { step: 0, error: eperm }]);
    let expected: Vec<BootStep> = (0..10).map(boot_step_entry).collect();
    assert_eq!(performed, expected);
    assert_eq!(performed[1], BootStep::Mount(pseudo_filesystem_entry(1)));
    assert_eq!(performed[2], BootStep::Mount(pseudo_filesystem_entry(2)));
    assert_eq!(performed[3], BootStep::Mount(pseudo_filesystem_entry(3)));
}

#[test]
fn boot_sequence_survives_every_step_failing() {
    let eio = Error::Errno(nix::libc::EIO);
    let mut replies: Vec<StepReply> = Vec::new();
    let mut steps: Vec<usize> = Vec::new();
    let result = loop {
        match mount_filesystem(&replies) {
            BootProgress::Perform(_) => {
                replies.push(Err(eio));
                steps.push(boot_diagnostic(&replies).unwrap().step);
            }
            BootProgress::Returned(result) => break result,
        }
    };
    assert_eq!(result, Ok(()));
    assert_eq!(steps, vec![0, 1, 2, 3, 7, 8, 9]);
}

#[test]
fn boot_diagnostics_name_the_step_that_failed() {
    let eio = Error::Errno(nix::libc::EIO);
    assert_eq!(boot_diagnostic(&vec![]), None);
    assert_eq!(boot_diagnostic(&vec![Ok(())]), None);
    assert_eq!(boot_diagnostic(&vec![Err(eio), Ok(())]), None);
    assert_eq!(
        boot_diagnostic(&vec![Ok(()), Ok(()), Ok(()), Err(eio), Err(eio)]),
        Some(BootDiagnostic { step: 6, error: eio })
    );
    let mut all: Vec<StepReply> = vec![Ok(()); 10];
    all.push(Err(eio));
    assert_eq!(boot_diagnostic(&all), None);
}

#[test]
fn helper_that_cannot_be_launched_does_not_stop_the_boot_sequence() {
    let eagain = Error::Errno(nix::libc::EAGAIN);
    let mut replies: Vec<StepReply> = vec![Ok(()); 8];
    replies.push(Err(eagain));
    assert_eq!(boot_diagnostic(&replies), Some(BootDiagnostic { step: 8, error: eagain }));
    assert_eq!(
        mount_filesystem(&replies),
        BootProgress::Perform(BootStep::Run(boot_helper_command(2)))
    );
    replies.push(Err(eagain));
    assert_eq!(mount_filesystem(&replies), BootProgress::Returned(Ok(())));
}

#[test]
fn swapoff_runs_once() {
    assert_eq!(
        turn_off_swap_partitions(&vec![]),
        HelperProgress::Run(command_of(&["/usr/bin/swapoff", "-a"]))
    );
    assert_eq!(turn_off_swap_partitions(&vec![Ok(())]), HelperProgress::Returned(Ok(())));
    let eagain = Error::Errno(nix::libc::EAGAIN);
    assert_eq!(
        turn_off_swap_partitions(&vec![Err(eagain)]),
        HelperProgress::Returned(Err(eagain))
    );
}

#[test]
fn root_is_recognised_by_its_path() {
    assert!(is_root(&b"/".to_vec()));
    assert!(!is_root(&b"".to_vec()));
    assert!(!is_root(&b"//".to_vec()));
    assert!(!is_root(&b"/proc".to_vec()));
    assert!(!is_root(&b"a".to_vec()));
}

#[test]
fn teardown_of_an_empty_table_is_finished() {
    assert_eq!(unmount_all_filesystems(&vec![], &vec![]), Teardown::Finished);
    assert_eq!(unmount_all_filesystems(&vec![], &vec![Ok(())]), Teardown::Finished);
}

#[test]
fn teardown_unmounts_in_table_order() {
    let entries = entries_of(&["/proc", "/sys", "/dev"]);
    let mut replies: Vec<StepReply> = Vec::new();
    for index in 0..3 {
        assert_eq!(unmount_all_filesystems(&entries, &replies), Teardown::Unmount(index));
        replies.push(Ok(()));
    }
    assert_eq!(unmount_all_filesystems(&entries, &replies), Teardown::Finished);
}

#[test]
fn root_is_remounted_and_never_unmounted() {
    let entries = entries_of(&["/", "/proc", "/"]);
    let mut replies: Vec<StepReply> = Vec::new();
    assert_eq!(unmount_all_filesystems(&entries, &replies), Teardown::RemountReadOnly(0));
    replies.push(Ok(()));
    assert_eq!(unmount_all_filesystems(&entries, &replies), Teardown::Unmount(1));
    replies.push(Ok(()));
    assert_eq!(unmount_all_filesystems(&entries, &replies), Teardown::RemountReadOnly(2));
    replies.push(Err(Error::Errno(nix::libc::EBUSY)));
    assert_eq!(unmount_all_filesystems(&entries, &replies), Teardown::Finished);
}

#[test]
fn failed_unmount_falls_back_to_a_read_only_remount() {
    let entries = entries_of(&["/run", "/dev"]);
    let einval = Error::Errno(nix::libc::EINVAL);
    let mut replies: Vec<StepReply> = vec![Err(einval)];
    assert_eq!(unmount_all_filesystems(&entries, &replies), Teardown::RemountReadOnly(0));
    replies.push(Err(einval));
    assert_eq!(unmount_all_filesystems(&entries, &replies), Teardown::Unmount(1));
    replies.push(Ok(()));
    assert_eq!(unmount_all_filesystems(&entries, &replies), Teardown::Finished);
}

#[test]
fn already_unmounted_entry_does_not_stop_teardown() {
    let entries = entries_of(&["/run", "/run", "/sys"]);
    let einval = Error::Errno(nix::libc::EINVAL);
    let replies: Vec<StepReply> = vec![Ok(()), Err(einval)];
    assert_eq!(unmount_all_filesystems(&entries, &replies), Teardown::RemountReadOnly(1));
    let replies: Vec<StepReply> = vec![Ok(()), Err(einval), Err(einval)];
    assert_eq!(unmount_all_filesystems(&entries, &replies), Teardown::Unmount(2));
}

#[test]
fn teardown_steps_agree_with_the_whole() {
    let entries = entries_of(&["/", "/proc"]);
    let first = teardown_first_action(&entries, 0);
    assert_eq!(first, Teardown::RemountReadOnly(0));
    let second = teardown_next_action(&entries, first, &Ok(()));
    assert_eq!(second, Teardown::Unmount(1));
    let ebusy = Error::Errno(nix::libc::EBUSY);
    let third = teardown_next_action(&entries, second, &Err(ebusy));
    assert_eq!(third, Teardown::RemountReadOnly(1));
    assert_eq!(teardown_next_action(&entries, third, &Ok(())), Teardown::Finished);
    assert_eq!(teardown_next_action(&entries, Teardown::Finished, &Ok(())), Teardown::Finished);
    assert_eq!(teardown_first_action(&entries, 2), Teardown::Finished);
    assert_eq!(teardown_next_action(&entries, Teardown::Unmount(usize::MAX), &Ok(())), Teardown::Finished);
}

#[test]
fn teardown_diagnostics() {
    let ebusy = Error::Errno(nix::libc::EBUSY);
    assert_eq!(teardown_diagnostic(Teardown::Unmount(2), &Ok(())), None);
    assert_eq!(
        teardown_diagnostic(Teardown::Unmount(2), &Err(ebusy)),
        Some(TeardownDiagnostic::UnmountFailed { entry: 2, error: ebusy })
    );
    assert_eq!(
        teardown_diagnostic(Teardown::RemountReadOnly(1), &Err(ebusy)),
        Some(TeardownDiagnostic::RemountFailed { entry: 1, error: ebusy })
    );
    assert_eq!(teardown_diagnostic(Teardown::Finished, &Err(ebusy)), None);
}

#[test]
fn helpers_are_run_in_order_whatever_the_replies() {
    let eagain = Error::Errno(nix::libc::EAGAIN);
    let mut replies: Vec<StepReply> = Vec::new();
    for index in 0..3 {
        assert_eq!(run_boot_helpers(&replies), HelperProgress::Run(boot_helper_command(index)));
        replies.push(Err(eagain));
    }
    assert_eq!(run_boot_helpers(&replies), HelperProgress::Returned(Ok(())));
}
