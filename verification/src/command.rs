//! The colon commands: a fixed vocabulary, matched against the whole of
//! what was typed.

use vstd::prelude::*;
use vstd::string::*;

verus! {

/// What a line typed in Command mode asks for.
#[derive(Clone, Copy, Debug, PartialEq, Eq, Structural)]
pub enum Command {
    /// `w`: store the buffer in its file.
    Write,
    /// `q`: end the session.
    Quit,
    /// `wq`: store the buffer, then end the session.
    WriteQuit,
    /// Anything else.
    Unknown,
}

/// The command that `text` spells. Only the exact words count: no blanks
/// around them, no other case, no abbreviation.
pub open spec fn command_of(text: Seq<char>) -> Command {
    if text == seq!['w'] {
        Command::Write
    } else if text == seq!['q'] {
        Command::Quit
    } else if text == seq!['w', 'q'] {
        Command::WriteQuit
    } else {
        Command::Unknown
    }
}

/// Reads `text` as a command.
pub fn parse_command(text: &str) -> (command: Command)
    ensures
        command == command_of(text@),
{
    let len = text.unicode_len();
    if len == 1 {
        let first = text.get_char(0);
        if first == 'w' {
            assert(text@ =~= seq!['w']);
            Command::Write
        } else if first == 'q' {
            assert(text@ =~= seq!['q']);
            Command::Quit
        } else {
            Command::Unknown
        }
    } else if len == 2 {
        if text.get_char(0) == 'w' && text.get_char(1) == 'q' {
            assert(text@ =~= seq!['w', 'q']);
            Command::WriteQuit
        } else {
            Command::Unknown
        }
    } else {
        Command::Unknown
    }
}

} // verus!
