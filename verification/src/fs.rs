//! Reading the live mount table entry by entry.
//!
//! The stream itself belongs to the embedding program. The parser here
//! keeps the stream's state: which entries were yielded, and whether the
//! stream has been released.

use vstd::prelude::*;
use crate::error::Error;

verus! {

/// One entry of the live mount table.
#[derive(Clone, Debug, PartialEq, Eq)]
pub struct Entry {
    /// The bytes of the directory on which the filesystem is mounted.
    pub mnt_dir: Vec<u8>,
}

impl View for Entry {
    type V = Seq<u8>;

    open spec fn view(&self) -> Seq<u8> {
        self.mnt_dir@
    }
}

impl Entry {
    /// The entry read from the stream, or none where the stream gave none.
    pub fn from_raw(raw: Option<Vec<u8>>) -> (entry: Option<Entry>)
        ensures
            raw is None <==> entry is None,
            raw matches Some(bytes) ==> entry->Some_0@ == bytes@,
    {
        match raw {
            None => None,
            Some(mnt_dir) => Some(Entry { mnt_dir }),
        }
    }

    /// The path this entry is mounted on.
    pub fn path(&self) -> (path: &Vec<u8>)
        ensures
            path@ == self@,
    {
        &self.mnt_dir
    }
}

/// The state of the stream over the live mount table.
pub struct MountPointParser {
    /// The paths yielded so far, in the order they were read.
    yielded: Vec<Vec<u8>>,
    /// Whether the stream has been released.
    released: bool,
}

/// What opening the stream gave: whether the handle is non-null, or the
/// raw `errno` of a path that could not be handed to the system.
pub type StreamReply = Result<bool, i32>;

/// The state of a stream as contracts see it.
pub struct Stream {
    /// The paths yielded so far, oldest first.
    pub yielded: Seq<Seq<u8>>,
    /// Whether the stream has been released.
    pub released: bool,
}

impl Stream {
    /// What a read yields: the entry read while the stream is open, and
    /// nothing at the end of the table or once the stream is released.
    pub open spec fn yields(self, raw: Option<Seq<u8>>) -> Option<Seq<u8>> {
        if self.released {
            None
        } else {
            raw
        }
    }

    /// The stream after a read.
    pub open spec fn read(self, raw: Option<Seq<u8>>) -> Stream {
        match self.yields(raw) {
            None => self,
            Some(path) => Stream { yielded: self.yielded.push(path), released: self.released },
        }
    }

    /// Whether a release has to close the stream.
    pub open spec fn closes(self) -> bool {
        !self.released
    }

    /// The stream after a release.
    pub open spec fn release(self) -> Stream {
        Stream { yielded: self.yielded, released: true }
    }
}

/// The path of a raw entry.
pub open spec fn raw_path(raw: Option<Vec<u8>>) -> Option<Seq<u8>> {
    match raw {
        None => None,
        Some(bytes) => Some(bytes@),
    }
}

/// The path of a yielded entry.
pub open spec fn entry_path(entry: Option<Entry>) -> Option<Seq<u8>> {
    match entry {
        None => None,
        Some(entry) => Some(entry@),
    }
}

impl View for MountPointParser {
    type V = Stream;

    closed spec fn view(&self) -> Stream {
        Stream {
            yielded: Seq::new(self.yielded@.len(), |i: int| self.yielded@[i]@),
            released: self.released,
        }
    }
}

impl MountPointParser {
    /// The parser over a freshly opened stream. A path that the system
    /// refuses gives its `errno`; a null handle gives the parser's own
    /// error.
    pub fn new(stream: StreamReply) -> (parser: Result<MountPointParser, Error>)
        ensures
            match stream {
                Ok(true) => parser is Ok && parser->Ok_0@ == (Stream {
                    yielded: Seq::empty(),
                    released: false,
                }),
                Ok(false) => parser is Err && parser->Err_0 == Error::MountPointParser,
                Err(code) => parser is Err && parser->Err_0 == Error::Errno(code),
            },
    {
        match stream {
            Ok(true) => {
                let parser = MountPointParser { yielded: Vec::new(), released: false };
                assert(parser@.yielded =~= Seq::<Seq<u8>>::empty());
                Ok(parser)
            },
            Ok(false) => Err(Error::MountPointParser),
            Err(code) => Err(Error::Errno(code)),
        }
    }

    /// Whether the stream has been released.
    pub fn is_closed(&self) -> (closed: bool)
        ensures
            closed == self@.released,
    {
        self.released
    }

    /// The number of entries yielded so far.
    pub fn count(&self) -> (count: usize)
        ensures
            count == self@.yielded.len(),
    {
        self.yielded.len()
    }

    /// Yields what was read from the stream. While the stream is open each
    /// entry read is yielded, in the order of reading, and the end of the
    /// table yields none. A released stream yields nothing, whatever is
    /// handed in.
    pub fn next(&mut self, raw: Option<Vec<u8>>) -> (entry: Option<Entry>)
        ensures
            entry_path(entry) == old(self)@.yields(raw_path(raw)),
            final(self)@ == old(self)@.read(raw_path(raw)),
    {
        if self.released {
            return None;
        }
        match raw {
            None => None,
            Some(mnt_dir) => {
                let copy = mnt_dir.clone();
                self.yielded.push(mnt_dir);
                assert(self@.yielded =~= old(self)@.yielded.push(copy@));
                Some(Entry { mnt_dir: copy })
            },
        }
    }

    /// Releases the stream. The result says whether the stream is to be
    /// closed now: it is on the first release and never again, whether or
    /// not the table was read to its end.
    pub fn close(&mut self) -> (close_now: bool)
        ensures
            close_now == old(self)@.closes(),
            final(self)@ == old(self)@.release(),
    {
        let close_now = !self.released;
        self.released = true;
        close_now
    }
}

/// The entries come out in the order they were read: after reading `first`
/// and then `second` from an open stream, `first` stands right before
/// `second` at the end of what was yielded.
pub proof fn lemma_entries_keep_their_order(stream: Stream, first: Seq<u8>, second: Seq<u8>)
    requires
        !stream.released,
    ensures
        stream.read(Some(first)).read(Some(second)).yielded == stream.yielded.push(first).push(
            second,
        ),
{
}

/// A stream is closed by its first release only: whatever is read or
/// released afterwards, no later release closes it again, and nothing more
/// is yielded.
pub proof fn lemma_stream_is_closed_once(stream: Stream, raw: Option<Seq<u8>>)
    ensures
        !stream.release().closes(),
        !stream.release().read(raw).closes(),
        !stream.release().release().closes(),
        stream.release().yields(raw) is None,
        stream.read(raw).closes() == stream.closes(),
{
}

} // verus!
