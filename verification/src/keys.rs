//! Keys as the terminal reports them in raw mode.

use vstd::prelude::*;
use vstd::utf8::*;

verus! {

/// A key, decoded.
#[derive(Clone, Copy, Debug, PartialEq, Eq, Structural)]
pub enum Key {
    Backspace,
    Left,
    Right,
    Up,
    Down,
    Home,
    End,
    PageUp,
    PageDown,
    BackTab,
    Delete,
    Insert,
    /// A function key, by its number.
    F(u8),
    /// A plain character.
    Char(char),
    /// A character typed with Alt.
    Alt(char),
    /// A character typed with Control.
    Ctrl(char),
    /// The null byte.
    Null,
    Esc,
}

/// What one read of the terminal's event stream gave.
#[derive(Debug, PartialEq, Eq)]
pub enum KeyRead {
    /// A key, and the bytes that the terminal sent for it.
    Key(Key, Vec<u8>),
    /// An event that is no key: the mouse, or a sequence that was not
    /// understood.
    Other,
    /// The read failed.
    Failed,
    /// The stream has ended.
    Ended,
}

/// The key chord that detaches the terminal in raw mode: Control-B.
pub open spec fn detach_key() -> Key {
    Key::Ctrl('b')
}

/// Whether `key` is the detach gesture of raw mode.
pub fn is_detach_key(key: Key) -> (detach: bool)
    ensures
        detach == (key == detach_key()),
{
    key == Key::Ctrl('b')
}

/// The key of one read with its raw bytes; nothing where the read gave no key.
pub fn handle_key_input(read: KeyRead) -> (input: Option<(Key, Vec<u8>)>)
    ensures
        input == match read {
            KeyRead::Key(key, raw) => Some((key, raw)),
            _ => None,
        },
{
    match read {
        KeyRead::Key(key, raw) => Some((key, raw)),
        _ => None,
    }
}

/// The text that `String::from_utf8_lossy` makes of bytes: the text they
/// encode, with the replacement character in place of what is no UTF-8.
pub uninterp spec fn lossy_text(raw: Seq<u8>) -> Seq<char>;

/// `String::from_utf8_lossy`, owned. It never fails; bytes that are valid
/// UTF-8 come back as the text they encode.
#[verifier::external_body]
pub(crate) fn decode_lossy(raw: &Vec<u8>) -> (text: String)
    ensures
        text@ == lossy_text(raw@),
        valid_utf8(raw@) ==> text@ == decode_utf8(raw@),
{
    String::from_utf8_lossy(raw).into_owned()
}

} // verus!
