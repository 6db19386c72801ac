//! A file opened through a memory mapping, as a resource that is released
//! exactly once.

use vstd::prelude::*;
use crate::error::Error;
use crate::sequence::StepReply;

verus! {

/// The descriptor value that marks a mapping as closed.
pub const CLOSED: i32 = -1;

/// A file descriptor together with the length of its mapping. The mapped
/// memory itself stays with the embedding program.
#[derive(Debug, PartialEq, Eq)]
pub struct FileMapping {
    raw_fd: i32,
    length: usize,
    mapped: bool,
}

/// What a mapping still holds, as contracts see it.
pub struct Held {
    /// The descriptor, or the closed mark once it has been closed.
    pub raw_fd: i32,
    /// The length of the mapping.
    pub length: usize,
    /// Whether the memory is still mapped.
    pub mapped: bool,
}

impl Held {
    /// Whether nothing is held any more.
    pub open spec fn released(self) -> bool {
        self.raw_fd == CLOSED && !self.mapped
    }

    /// The release that is due: the descriptor first, then the memory, and
    /// nothing once both are released.
    pub open spec fn due(self) -> CloseProgress {
        if self.raw_fd != CLOSED {
            CloseProgress::CloseFile(self.raw_fd)
        } else if self.mapped {
            CloseProgress::Unmap(self.length)
        } else {
            CloseProgress::Returned(Ok(()))
        }
    }

    /// What is held after the reply to the release that was due: a release
    /// that succeeded is recorded at once and by itself, a failed one
    /// changes nothing.
    pub open spec fn after(self, reply: Option<StepReply>) -> Held {
        match reply {
            Some(Ok(_)) => if self.raw_fd != CLOSED {
                Held { raw_fd: CLOSED, length: self.length, mapped: self.mapped }
            } else {
                Held { raw_fd: CLOSED, length: self.length, mapped: false }
            },
            _ => self,
        }
    }

    /// What closing answers to a reply: the error of a release that failed,
    /// which ends this attempt, and else the release that is due next.
    pub open spec fn close_progress(self, reply: Option<StepReply>) -> CloseProgress {
        match reply {
            Some(Err(error)) => if self.released() {
                CloseProgress::Returned(Ok(()))
            } else {
                CloseProgress::Returned(Err(error))
            },
            _ => self.after(reply).due(),
        }
    }
}

/// Where the opening of a mapping stands.
#[derive(Debug, PartialEq, Eq)]
pub enum OpenProgress {
    /// Open the file read-only.
    OpenFile,
    /// Ask for the size of the file behind this descriptor.
    Stat(i32),
    /// Map so many bytes of this descriptor, privately and read-only.
    MapFile { fd: i32, length: usize },
    /// Opening failed; the descriptor, if one was acquired, is to be
    /// closed before the error is handed on.
    Failed { release: Option<i32>, error: Error },
    /// The mapping is open.
    Opened(FileMapping),
}

/// Where the closing of a mapping stands.
#[derive(Clone, Copy, Debug, PartialEq, Eq)]
pub enum CloseProgress {
    /// Close this descriptor.
    CloseFile(i32),
    /// Undo the mapping of so many bytes.
    Unmap(usize),
    /// Closing is over.
    Returned(Result<(), Error>),
}

/// The reply of a system call that yields a number.
pub type NumberReply<T> = Result<T, i32>;

impl View for FileMapping {
    type V = Held;

    closed spec fn view(&self) -> Held {
        Held { raw_fd: self.raw_fd, length: self.length, mapped: self.mapped }
    }
}

impl FileMapping {
    /// Whether `mapping` is the open mapping of `length` bytes of `fd`.
    pub open spec fn maps(&self, fd: i32, length: usize) -> bool {
        self@ == (Held { raw_fd: fd, length, mapped: true })
    }

    /// Where opening stands, given the replies to the open, the size query
    /// and the mapping as far as they were made: an empty file and a null
    /// mapping are errors of their own, a failed call gives its `errno`,
    /// and every failure after the open releases the descriptor.
    pub open spec fn open_progress(
        file: Option<NumberReply<i32>>,
        size: Option<NumberReply<usize>>,
        mapping: Option<NumberReply<bool>>,
        progress: OpenProgress,
    ) -> bool {
        match file {
            None => progress == OpenProgress::OpenFile,
            Some(Err(code)) => progress == (OpenProgress::Failed {
                release: None,
                error: Error::Errno(code),
            }),
            Some(Ok(fd)) => match size {
                None => progress == OpenProgress::Stat(fd),
                Some(Err(code)) => progress == (OpenProgress::Failed {
                    release: Some(fd),
                    error: Error::Errno(code),
                }),
                Some(Ok(length)) => if length == 0 {
                    progress == (OpenProgress::Failed {
                        release: Some(fd),
                        error: Error::UnexpectedEmptyFile,
                    })
                } else {
                    match mapping {
                        None => progress == (OpenProgress::MapFile { fd, length }),
                        Some(Err(code)) => progress == (OpenProgress::Failed {
                            release: Some(fd),
                            error: Error::Errno(code),
                        }),
                        Some(Ok(false)) => progress == (OpenProgress::Failed {
                            release: Some(fd),
                            error: Error::MmapFailed,
                        }),
                        Some(Ok(true)) => progress matches OpenProgress::Opened(opened)
                            && opened.maps(fd, length),
                    }
                },
            },
        }
    }

    /// Opens a file through a memory mapping.
    pub fn open(
        file: Option<NumberReply<i32>>,
        size: Option<NumberReply<usize>>,
        mapping: Option<NumberReply<bool>>,
    ) -> (progress: OpenProgress)
        ensures
            FileMapping::open_progress(file, size, mapping, progress),
    {
        let fd = match file {
            None => {
                return OpenProgress::OpenFile;
            },
            Some(Err(code)) => {
                return OpenProgress::Failed { release: None, error: Error::Errno(code) };
            },
            Some(Ok(fd)) => fd,
        };
        let length = match size {
            None => {
                return OpenProgress::Stat(fd);
            },
            Some(Err(code)) => {
                return OpenProgress::Failed { release: Some(fd), error: Error::Errno(code) };
            },
            Some(Ok(length)) => length,
        };
        if length == 0 {
            return OpenProgress::Failed { release: Some(fd), error: Error::UnexpectedEmptyFile };
        }
        match mapping {
            None => OpenProgress::MapFile { fd, length },
            Some(Err(code)) => OpenProgress::Failed {
                release: Some(fd),
                error: Error::Errno(code),
            },
            Some(Ok(false)) => OpenProgress::Failed {
                release: Some(fd),
                error: Error::MmapFailed,
            },
            Some(Ok(true)) => OpenProgress::Opened(FileMapping { raw_fd: fd, length, mapped: true }),
        }
    }

    /// The number of mapped bytes.
    pub fn len(&self) -> (length: usize)
        ensures
            length == self@.length,
    {
        self.length
    }

    /// Whether the mapping has been released altogether.
    pub fn is_closed(&self) -> (closed: bool)
        ensures
            closed == self@.released(),
    {
        self.raw_fd == CLOSED && !self.mapped
    }

    /// Closes the descriptor and undoes the mapping, one release at a time.
    ///
    /// `reply` is the reply to the release this function asked for last,
    /// or none on the first call of an attempt. Each release that
    /// succeeded is recorded by itself, so that no later attempt, by hand
    /// or on the way out, asks for it again; a release that failed ends
    /// the attempt with its error and stays due.
    pub fn close(&mut self, reply: Option<StepReply>) -> (progress: CloseProgress)
        ensures
            progress == old(self)@.close_progress(reply),
            final(self)@ == old(self)@.after(reply),
    {
        match reply {
            Some(Err(error)) => {
                if self.is_closed() {
                    CloseProgress::Returned(Ok(()))
                } else {
                    CloseProgress::Returned(Err(error))
                }
            },
            Some(Ok(_)) => {
                if self.raw_fd != CLOSED {
                    self.raw_fd = CLOSED;
                } else {
                    self.mapped = false;
                }
                self.release_due()
            },
            None => self.release_due(),
        }
    }

    /// The release that is due.
    pub fn release_due(&self) -> (progress: CloseProgress)
        ensures
            progress == self@.due(),
    {
        if self.raw_fd != CLOSED {
            CloseProgress::CloseFile(self.raw_fd)
        } else if self.mapped {
            CloseProgress::Unmap(self.length)
        } else {
            CloseProgress::Returned(Ok(()))
        }
    }
}

/// Each of the two resources is released exactly once: what a successful
/// reply has released is never asked for again, whatever is replied later,
/// and a mapping that holds nothing asks for nothing.
pub proof fn lemma_nothing_is_released_twice(held: Held, reply: Option<StepReply>)
    ensures
        held.raw_fd == CLOSED ==> held.after(reply).raw_fd == CLOSED && !(held.after(reply).due()
            is CloseFile) && !(held.close_progress(reply) is CloseFile),
        !held.mapped ==> !held.after(reply).mapped && !(held.after(reply).due() is Unmap) && !(
        held.close_progress(reply) is Unmap),
        held.released() ==> held.close_progress(reply) == CloseProgress::Returned(Ok(())),
        held.due() is CloseFile && reply is Some && reply->Some_0 is Ok ==> held.after(
            reply,
        ).raw_fd == CLOSED && held.after(reply).mapped == held.mapped,
{
}

} // verus!
