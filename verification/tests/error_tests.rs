use incipio::error::Error;

#[test]
fn describes_each_own_error() {
    assert_eq!(
        Error::UnexpectedEmptyFile.description(),
        "found an empty file where content was expected"
    );
    assert_eq!(Error::MmapFailed.description(), "mmap returned a null pointer");
    assert_eq!(Error::NotRunningAsInitSystem.description(), "not running as PID 1");
    assert_eq!(Error::WriteToString.description(), "failed to write to string");
    assert_eq!(Error::MountPointParser.description(), "failed to parse mount point file");
}

#[test]
fn describes_errno_with_the_system_text() {
    let interrupted = Error::Errno(nix::errno::Errno::EINTR as i32);
    assert_eq!(interrupted.description(), "Interrupted system call");
    let missing = Error::Errno(nix::errno::Errno::ENOENT as i32);
    assert_eq!(missing.description(), nix::errno::Errno::ENOENT.desc());
    assert_eq!(missing.description(), "No such file or directory");
}

#[test]
fn describes_unknown_errno() {
    assert_eq!(Error::Errno(-5).description(), "Unknown errno");
}

#[test]
fn errno_converts_into_the_error() {
    assert_eq!(Error::from(13), Error::Errno(13));
}
