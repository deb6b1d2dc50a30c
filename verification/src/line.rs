//! One read of a line in line mode: the prompt that is shown, what the read
//! hands on, and the detach command.

use crate::text::{same_text, trim, trim_ends};
use vstd::prelude::*;

verus! {

/// Why a line read gave no line.
#[derive(Clone, Copy, Debug, PartialEq, Eq, Structural)]
pub enum ReadError {
    /// The terminal could not be read or written.
    Io,
    /// The input has ended: the reader is closed.
    Eof,
    /// The user interrupted the read.
    Interrupted,
    /// The window changed its size during the read.
    WindowResized,
    /// Any other failure of the editor.
    Other,
}

impl ReadError {
    /// Whether a new read may follow the error. An interrupt and a resized
    /// window are passing conditions; after any other error the editor's state
    /// is lost.
    pub open spec fn transient(self) -> bool {
        self == ReadError::Interrupted || self == ReadError::WindowResized
    }

    /// Whether a new read may follow the error.
    pub fn is_transient(self) -> (b: bool)
        ensures
            b == self.transient(),
    {
        match self {
            ReadError::Interrupted | ReadError::WindowResized => true,
            _ => false,
        }
    }
}

/// The command word that detaches the terminal in line mode.
pub open spec fn detach_word() -> Seq<char> {
    seq!['b', 'a', 'c', 'k']
}

/// Whether a line is the detach command: the command word, with nothing
/// but white space before and behind it.
pub open spec fn detach_line(content: Seq<char>) -> bool {
    trim(content) == detach_word()
}

/// The prompt that a read shows: the one given, or the empty one.
pub fn line_prompt(prompt: Option<&str>) -> (shown: String)
    ensures
        shown@ == match prompt {
            Some(p) => p@,
            None => Seq::<char>::empty(),
        },
{
    match prompt {
        Some(p) => String::from_str(p),
        None => String::new(),
    }
}

/// What a read hands on, given what the line editor returned: the entered
/// line with a line feed behind it, or the very error of the editor, so that
/// an interrupt stays apart from the end of the input and from a terminal
/// that failed.
pub fn read_line(entered: Result<String, ReadError>) -> (content: Result<String, ReadError>)
    ensures
        match entered {
            Ok(line) => content is Ok && content->Ok_0@ == line@ + seq!['\n'],
            Err(error) => content == Err::<String, ReadError>(error),
        },
{
    match entered {
        Ok(line) => {
            proof {
                reveal_strlit("\n");
            }
            let content = line.concat("\n");
            assert(content@ =~= line@ + seq!['\n']);
            Ok(content)
        },
        Err(error) => Err(error),
    }
}

/// Whether `content` is the detach command.
pub fn is_detach_line(content: &str) -> (detach: bool)
    ensures
        detach == detach_line(content@),
{
    proof {
        reveal_strlit("back");
    }
    assert("back"@ =~= detach_word());
    same_text(trim_ends(content), "back")
}

} // verus!
