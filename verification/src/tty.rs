//! Starting the login terminals.

use vstd::prelude::*;
use crate::error::Error;
use crate::exec::Command;
use crate::sequence::StepReply;

verus! {

/// The number of terminals that are opened.
pub const TTYS: usize = 8;

/// The text of an optional string.
pub open spec fn text_of(text: Option<&'static str>) -> Option<Seq<char>> {
    match text {
        None => None,
        Some(text) => Some(text@),
    }
}

/// The program that opens a terminal: the first of the two known programs
/// that is executable.
pub open spec fn tty_opener(getty_executable: bool, agetty_executable: bool) -> Option<Seq<char>> {
    if getty_executable {
        Some("/usr/bin/getty"@)
    } else if agetty_executable {
        Some("/usr/bin/agetty"@)
    } else {
        None
    }
}

/// The name of the terminal with the given index, counted from zero.
pub open spec fn tty_name(index: int) -> Seq<char> {
    if index == 0 {
        "tty1"@
    } else if index == 1 {
        "tty2"@
    } else if index == 2 {
        "tty3"@
    } else if index == 3 {
        "tty4"@
    } else if index == 4 {
        "tty5"@
    } else if index == 5 {
        "tty6"@
    } else if index == 6 {
        "tty7"@
    } else {
        "tty8"@
    }
}

/// The command that opens the terminal with the given index: the opener,
/// the baud rates, the terminal and the terminal type.
pub open spec fn tty_command(opener: Seq<char>, index: int) -> Seq<Seq<char>> {
    seq![opener, "115200,38400,9600"@, tty_name(index), "linux"@]
}

/// Picks the program that opens a terminal, given which of the two known
/// programs are executable.
pub fn tty_opener_binary(getty_executable: bool, agetty_executable: bool) -> (opener: Option<
    &'static str,
>)
    ensures
        text_of(opener) == tty_opener(getty_executable, agetty_executable),
{
    if getty_executable {
        Some("/usr/bin/getty")
    } else if agetty_executable {
        Some("/usr/bin/agetty")
    } else {
        None
    }
}

/// The name of the terminal with the given index.
pub fn tty_device(index: usize) -> (name: &'static str)
    ensures
        name@ == tty_name(index as int),
{
    if index == 0 {
        "tty1"
    } else if index == 1 {
        "tty2"
    } else if index == 2 {
        "tty3"
    } else if index == 3 {
        "tty4"
    } else if index == 4 {
        "tty5"
    } else if index == 5 {
        "tty6"
    } else if index == 6 {
        "tty7"
    } else {
        "tty8"
    }
}

/// Where the opening of the terminals stands.
#[derive(Debug, PartialEq, Eq)]
pub enum TtyProgress {
    /// Launch this command; `should_wait` says whether to wait for it.
    Launch { command: Command, should_wait: bool },
    /// The opening is over; `opener_found` says whether a program that
    /// opens terminals was there at all.
    Returned { opener_found: bool },
}

/// The opening of the terminals as contracts see it.
pub enum TtyProgressView {
    Launch { command: Seq<Seq<char>>, should_wait: bool },
    Returned { opener_found: bool },
}

impl View for TtyProgress {
    type V = TtyProgressView;

    open spec fn view(&self) -> TtyProgressView {
        match self {
            TtyProgress::Launch { command, should_wait } => TtyProgressView::Launch {
                command: command@,
                should_wait: *should_wait,
            },
            TtyProgress::Returned { opener_found } => TtyProgressView::Returned {
                opener_found: *opener_found,
            },
        }
    }
}

/// What is worth telling the operator about the launch of a terminal.
#[derive(Clone, Copy, Debug, PartialEq, Eq, Structural)]
pub struct TtyDiagnostic {
    /// The index of the terminal, counted from zero.
    pub tty: usize,
    /// Why its launch failed.
    pub error: Error,
}

/// Where the opening of the terminals stands after the replies to the
/// launches made so far: without an opener nothing is launched; with one,
/// the eight terminals are launched in order, none of them waited for, and
/// the launch after reply `k` is that of terminal `k + 1` whatever the
/// reply was.
pub open spec fn tty_progress(
    getty_executable: bool,
    agetty_executable: bool,
    replies: Seq<StepReply>,
) -> TtyProgressView {
    match tty_opener(getty_executable, agetty_executable) {
        None => TtyProgressView::Returned { opener_found: false },
        Some(opener) => if replies.len() < TTYS {
            TtyProgressView::Launch {
                command: tty_command(opener, replies.len() as int),
                should_wait: false,
            }
        } else {
            TtyProgressView::Returned { opener_found: true }
        },
    }
}

/// The diagnostic owed for the last of the replies: the terminal it
/// answers and its error, where it is a failure.
pub open spec fn tty_diagnostic_of(replies: Seq<StepReply>) -> Option<TtyDiagnostic> {
    if 0 < replies.len() <= TTYS && replies.last() is Err {
        Some(TtyDiagnostic { tty: (replies.len() - 1) as usize, error: replies.last()->Err_0 })
    } else {
        None
    }
}

/// Opens the eight terminals: each is launched through the opener without
/// waiting for it, so that its child is left to the reaper, and a launch
/// that fails is reported and does not keep the next terminal from being
/// launched.
///
/// `replies` holds the replies to the launches made so far.
pub fn open_ttys(getty_executable: bool, agetty_executable: bool, replies: &Vec<StepReply>) -> (progress:
    TtyProgress)
    ensures
        progress@ == tty_progress(getty_executable, agetty_executable, replies@),
        progress matches TtyProgress::Launch { should_wait, .. } ==> !should_wait,
{
    let opener = match tty_opener_binary(getty_executable, agetty_executable) {
        None => {
            return TtyProgress::Returned { opener_found: false };
        },
        Some(opener) => opener,
    };
    if replies.len() < TTYS {
        let mut argv: Vec<&'static str> = Vec::new();
        argv.push(opener);
        argv.push("115200,38400,9600");
        argv.push(tty_device(replies.len()));
        argv.push("linux");
        let command = Command { argv };
        assert(command@ =~= tty_command(opener@, replies@.len() as int));
        TtyProgress::Launch { command, should_wait: false }
    } else {
        TtyProgress::Returned { opener_found: true }
    }
}

/// What to print about the last of the replies to the launches, if
/// anything.
pub fn tty_diagnostic(replies: &Vec<StepReply>) -> (diagnostic: Option<TtyDiagnostic>)
    ensures
        diagnostic == tty_diagnostic_of(replies@),
{
    if replies.len() == 0 || replies.len() > TTYS {
        return None;
    }
    match replies[replies.len() - 1] {
        Ok(_) => None,
        Err(error) => Some(TtyDiagnostic { tty: replies.len() - 1, error }),
    }
}

/// With an opener all eight terminals are launched whatever the replies
/// are: as long as fewer than eight launches were answered, the next one is
/// due.
pub proof fn lemma_failed_launch_does_not_stop_the_terminals(
    getty_executable: bool,
    agetty_executable: bool,
    replies: Seq<StepReply>,
)
    requires
        getty_executable || agetty_executable,
        replies.len() < TTYS,
    ensures
        tty_progress(getty_executable, agetty_executable, replies) == (TtyProgressView::Launch {
            command: tty_command(
                tty_opener(getty_executable, agetty_executable)->Some_0,
                replies.len() as int,
            ),
            should_wait: false,
        }),
{
}

} // verus!
