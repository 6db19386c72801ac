//! The crate's error type and the text shown for each error.

use vstd::prelude::*;

verus! {

/// Everything that can make an operation of this crate fail.
#[derive(Clone, Copy, Debug, PartialEq, Eq, Structural)]
pub enum Error {
    /// The live mount table could not be opened.
    MountPointParser,
    /// A file that must hold content was empty.
    UnexpectedEmptyFile,
    /// Formatting into a string failed.
    WriteToString,
    /// The kernel handed back a null mapping.
    MmapFailed,
    /// The process identifier is not 1.
    NotRunningAsInitSystem,
    /// A system call failed with this raw `errno` value.
    Errno(i32),
}

/// The text that `nix` holds for a raw `errno` value.
pub uninterp spec fn errno_text(code: i32) -> Seq<char>;

/// Calls `nix::errno::Errno::from_i32` and then `Errno::desc` on the result.
/// Both are total functions of their argument; the contract only gives the
/// returned text its name.
#[verifier::external_body]
fn errno_description(code: i32) -> (text: &'static str)
    ensures
        text@ == errno_text(code),
{
    nix::errno::Errno::from_i32(code).desc()
}

impl Error {
    /// The description of this error as a sequence of characters.
    pub open spec fn description_text(self) -> Seq<char> {
        match self {
            Error::UnexpectedEmptyFile => "found an empty file where content was expected"@,
            Error::MmapFailed => "mmap returned a null pointer"@,
            Error::NotRunningAsInitSystem => "not running as PID 1"@,
            Error::WriteToString => "failed to write to string"@,
            Error::MountPointParser => "failed to parse mount point file"@,
            Error::Errno(code) => errno_text(code),
        }
    }

    /// A short human-readable description of the error.
    pub fn description(&self) -> (text: &'static str)
        ensures
            text@ == self.description_text(),
    {
        match self {
            Error::UnexpectedEmptyFile => "found an empty file where content was expected",
            Error::MmapFailed => "mmap returned a null pointer",
            Error::NotRunningAsInitSystem => "not running as PID 1",
            Error::WriteToString => "failed to write to string",
            Error::MountPointParser => "failed to parse mount point file",
            Error::Errno(code) => errno_description(*code),
        }
    }
}

/// A raw `errno` value becomes the error that carries it.
impl From<i32> for Error {
    fn from(code: i32) -> (error: Error) {
        Error::Errno(code)
    }
}

impl vstd::std_specs::convert::FromSpecImpl<i32> for Error {
    open spec fn obeys_from_spec() -> bool {
        true
    }

    open spec fn from_spec(code: i32) -> Error {
        Error::Errno(code)
    }
}

} // verus!
