//! Rendering of socket output, and the prompt that is derived from it.

use vstd::prelude::*;
use vstd::std_specs::iter::IteratorSpec;

verus! {

/// The control sequence that clears the line the cursor is on.
pub open spec fn clear_line_seq() -> Seq<char> {
    seq!['\u{1b}', '[', '2', 'K']
}

/// The control sequence that clears the screen from its start up to the cursor.
pub open spec fn clear_before_cursor_seq() -> Seq<char> {
    seq!['\u{1b}', '[', '1', 'J']
}

/// What is written to the terminal for socket output `resp`: the output as it
/// is in raw mode; in line mode the line is cleared and the cursor sent to its
/// start first, so that the prompt is not shown twice.
pub open spec fn rendered(resp: Seq<char>, raw_mode: bool) -> Seq<char> {
    if raw_mode {
        resp
    } else {
        clear_line_seq() + seq!['\r'] + resp
    }
}

/// The index just behind the last line feed of `text`; 0 where it holds none.
pub open spec fn prompt_start(text: Seq<char>) -> int
    decreases text.len(),
{
    if text.len() == 0 {
        0
    } else if text.last() == '\n' {
        text.len() as int
    } else {
        prompt_start(text.drop_last())
    }
}

/// The prompt that rendered output leaves behind: what follows its last line
/// feed, and all of it where it holds no line feed.
pub open spec fn prompt_of(text: Seq<char>) -> Seq<char> {
    text.subrange(prompt_start(text), text.len() as int)
}

/// `prompt_start` splits the text behind a line feed, or at its start, and no
/// line feed follows the split.
pub proof fn lemma_prompt_start(text: Seq<char>)
    ensures
        0 <= prompt_start(text) <= text.len(),
        prompt_start(text) > 0 ==> text[prompt_start(text) - 1] == '\n',
        forall|i: int| prompt_start(text) <= i < text.len() ==> text[i] != '\n',
    decreases text.len(),
{
    if text.len() > 0 && text.last() != '\n' {
        let front = text.drop_last();
        lemma_prompt_start(front);
        assert forall|i: int| prompt_start(text) <= i < text.len() implies text[i] != '\n' by {
            if i < front.len() {
                assert(text[i] == front[i]);
            }
        }
    }
}

/// `termion::clear::CurrentLine`, formatted. Its `Display` impl writes the
/// escape character, `[` and `2K`.
#[verifier::external_body]
fn clear_current_line() -> (s: String)
    ensures
        s@ == clear_line_seq(),
{
    format!("{}", termion::clear::CurrentLine)
}

/// `termion::clear::BeforeCursor`, formatted. Its `Display` impl writes the
/// escape character, `[` and `1J`.
#[verifier::external_body]
fn clear_before_cursor() -> (s: String)
    ensures
        s@ == clear_before_cursor_seq(),
{
    format!("{}", termion::clear::BeforeCursor)
}

/// The text to write to the terminal for socket output `resp`.
pub fn render_output(resp: &str, raw_mode: bool) -> (outp: String)
    ensures
        outp@ == rendered(resp@, raw_mode),
{
    if raw_mode {
        String::from_str(resp)
    } else {
        let mut outp = clear_current_line();
        proof {
            reveal_strlit("\r");
        }
        outp.append("\r");
        outp.append(resp);
        assert(outp@ =~= rendered(resp@, raw_mode));
        outp
    }
}

/// The text that clears the screen above the cursor when a session detaches:
/// the control sequence and a line feed.
pub fn clear_screen_text() -> (text: String)
    ensures
        text@ == clear_before_cursor_seq() + seq!['\n'],
{
    let mut text = clear_before_cursor();
    proof {
        reveal_strlit("\n");
    }
    text.append("\n");
    assert(text@ =~= clear_before_cursor_seq() + seq!['\n']);
    text
}

/// The prompt for the next line read, taken from rendered output.
pub fn next_prompt(outp: &str) -> (prompt: String)
    ensures
        prompt@ == prompt_of(outp@),
        forall|i: int| 0 <= i < prompt@.len() ==> prompt@[i] != '\n',
        exists|head: Seq<char>|
            outp@ == head + prompt@ && (head.len() == 0 || head.last() == '\n'),
{
    let n: usize = outp.unicode_len();
    let mut it = outp.chars();
    let mut idx: usize = 0;
    let mut start: usize = 0;
    loop
        invariant
            n == outp@.len(),
            idx <= n,
            IteratorSpec::remaining(&it) == outp@.subrange(idx as int, n as int),
            start == prompt_start(outp@.subrange(0, idx as int)),
            it.obeys_prophetic_iter_laws(),
        ensures
            idx == n,
        decreases n - idx,
    {
        match it.next() {
            Some(c) => {
                assert(idx < n);
                assert(c == outp@[idx as int]);
                idx = idx + 1;
                assert(outp@.subrange(0, idx as int).drop_last() =~= outp@.subrange(
                    0,
                    idx as int - 1,
                ));
                if c == '\n' {
                    start = idx;
                }
                assert(IteratorSpec::remaining(&it) =~= outp@.subrange(idx as int, n as int));
            },
            None => {
                assert(idx == n);
                break ;
            },
        }
    }
    assert(idx == n);
    assert(outp@.subrange(0, n as int) =~= outp@);
    proof {
        lemma_prompt_start(outp@);
    }
    let prompt = String::from_str(outp.substring_char(start, n));
    assert(outp@ =~= outp@.subrange(0, start as int) + prompt@);
    prompt
}

} // verus!
