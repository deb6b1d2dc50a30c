//! Text helpers: equality of string slices, white space, and the removal of
//! white space at the ends of a text.

use vstd::prelude::*;
use vstd::std_specs::iter::IteratorSpec;

verus! {

/// Whether `c` is white space as Unicode defines it (White_Space).
pub open spec fn is_white_space(c: char) -> bool {
    let u = c as u32;
    ||| 0x09 <= u <= 0x0D
    ||| u == 0x20
    ||| u == 0x85
    ||| u == 0xA0
    ||| u == 0x1680
    ||| 0x2000 <= u <= 0x200A
    ||| u == 0x2028
    ||| u == 0x2029
    ||| u == 0x202F
    ||| u == 0x205F
    ||| u == 0x3000
}

/// The length of `text` without its trailing white space.
pub open spec fn trimmed_len(text: Seq<char>) -> nat
    decreases text.len(),
{
    if text.len() == 0 {
        0
    } else if is_white_space(text.last()) {
        trimmed_len(text.drop_last())
    } else {
        text.len()
    }
}

/// `text` without its trailing white space.
pub open spec fn trim_end(text: Seq<char>) -> Seq<char> {
    text.subrange(0, trimmed_len(text) as int)
}

/// How many characters of white space `text` begins with.
pub open spec fn leading_len(text: Seq<char>) -> nat
    decreases text.len(),
{
    if text.len() == 0 {
        0
    } else if is_white_space(text.first()) {
        1 + leading_len(text.drop_first())
    } else {
        0
    }
}

/// `text` without its leading white space.
pub open spec fn trim_start(text: Seq<char>) -> Seq<char> {
    text.subrange(leading_len(text) as int, text.len() as int)
}

/// `text` without the white space at its two ends.
pub open spec fn trim(text: Seq<char>) -> Seq<char> {
    trim_start(trim_end(text))
}

/// `leading_len` cuts `text` in front of its first character that is no white
/// space, or at its end where it holds none.
pub proof fn lemma_leading_len(text: Seq<char>)
    ensures
        leading_len(text) <= text.len(),
        leading_len(text) < text.len() ==> !is_white_space(text[leading_len(text) as int]),
        forall|i: int| 0 <= i < leading_len(text) ==> is_white_space(text[i]),
    decreases text.len(),
{
    if text.len() > 0 && is_white_space(text.first()) {
        let rest = text.drop_first();
        lemma_leading_len(rest);
        assert forall|i: int| 0 <= i < leading_len(text) implies is_white_space(text[i]) by {
            if i > 0 {
                assert(text[i] == rest[i - 1]);
            }
        }
        if leading_len(text) < text.len() {
            assert(text[leading_len(text) as int] == rest[leading_len(rest) as int]);
        }
    }
}

/// `trimmed_len` cuts `text` behind its last character that is no white
/// space, or at its start where it holds none.
pub proof fn lemma_trimmed_len(text: Seq<char>)
    ensures
        trimmed_len(text) <= text.len(),
        trimmed_len(text) > 0 ==> !is_white_space(text[trimmed_len(text) - 1]),
        forall|i: int| trimmed_len(text) <= i < text.len() ==> is_white_space(text[i]),
    decreases text.len(),
{
    if text.len() > 0 && is_white_space(text.last()) {
        let front = text.drop_last();
        lemma_trimmed_len(front);
        assert forall|i: int| trimmed_len(text) <= i < text.len() implies is_white_space(
            text[i],
        ) by {
            if i < front.len() {
                assert(text[i] == front[i]);
            }
        }
    }
}

/// Whether `c` is white space as Unicode defines it (White_Space).
pub fn white_space(c: char) -> (b: bool)
    ensures
        b == is_white_space(c),
{
    let u: u32 = c as u32;
    (0x09 <= u && u <= 0x0D) || u == 0x20 || u == 0x85 || u == 0xA0 || u == 0x1680 || (0x2000 <= u
        && u <= 0x200A) || u == 0x2028 || u == 0x2029 || u == 0x202F || u == 0x205F || u == 0x3000
}

/// Whether two string slices hold the same characters.
pub fn same_text(a: &str, b: &str) -> (same: bool)
    ensures
        same == (a@ == b@),
{
    let n: usize = a.unicode_len();
    if n != b.unicode_len() {
        return false;
    }
    let mut left = a.chars();
    let mut right = b.chars();
    let mut idx: usize = 0;
    loop
        invariant
            n == a@.len(),
            n == b@.len(),
            idx <= n,
            IteratorSpec::remaining(&left) == a@.subrange(idx as int, n as int),
            IteratorSpec::remaining(&right) == b@.subrange(idx as int, n as int),
            a@.subrange(0, idx as int) == b@.subrange(0, idx as int),
            left.obeys_prophetic_iter_laws(),
            right.obeys_prophetic_iter_laws(),
        ensures
            idx == n,
        decreases n - idx,
    {
        let x = left.next();
        let y = right.next();
        if x.is_none() {
            assert(idx == n);
            break ;
        }
        assert(x == Some(a@[idx as int]));
        assert(y == Some(b@[idx as int]));
        if x != y {
            return false;
        }
        idx = idx + 1;
        assert(a@.subrange(0, idx as int) =~= a@.subrange(0, idx as int - 1).push(
            a@[idx as int - 1],
        ));
        assert(b@.subrange(0, idx as int) =~= b@.subrange(0, idx as int - 1).push(
            b@[idx as int - 1],
        ));
        assert(IteratorSpec::remaining(&left) =~= a@.subrange(idx as int, n as int));
        assert(IteratorSpec::remaining(&right) =~= b@.subrange(idx as int, n as int));
    }
    assert(a@ =~= a@.subrange(0, n as int));
    assert(b@ =~= b@.subrange(0, n as int));
    true
}

/// `text` without its trailing white space.
pub fn trim_trailing(text: &str) -> (trimmed: &str)
    ensures
        trimmed@ == trim_end(text@),
        trimmed@.len() <= text@.len(),
        trimmed@.len() > 0 ==> !is_white_space(trimmed@.last()),
        forall|i: int| trimmed@.len() <= i < text@.len() ==> is_white_space(text@[i]),
{
    let n: usize = text.unicode_len();
    let mut it = text.chars();
    let mut idx: usize = 0;
    let mut end: usize = 0;
    loop
        invariant
            n == text@.len(),
            idx <= n,
            IteratorSpec::remaining(&it) == text@.subrange(idx as int, n as int),
            end == trimmed_len(text@.subrange(0, idx as int)),
            end <= idx,
            it.obeys_prophetic_iter_laws(),
        ensures
            idx == n,
        decreases n - idx,
    {
        match it.next() {
            Some(c) => {
                assert(c == text@[idx as int]);
                idx = idx + 1;
                assert(text@.subrange(0, idx as int).drop_last() =~= text@.subrange(
                    0,
                    idx as int - 1,
                ));
                if !white_space(c) {
                    end = idx;
                }
                assert(IteratorSpec::remaining(&it) =~= text@.subrange(idx as int, n as int));
            },
            None => {
                assert(idx == n);
                break ;
            },
        }
    }
    assert(text@.subrange(0, n as int) =~= text@);
    proof {
        lemma_trimmed_len(text@);
    }
    text.substring_char(0, end)
}

/// `text` without its leading white space.
pub fn trim_leading(text: &str) -> (trimmed: &str)
    ensures
        trimmed@ == trim_start(text@),
        trimmed@.len() <= text@.len(),
        trimmed@.len() > 0 ==> !is_white_space(trimmed@.first()),
        forall|i: int| 0 <= i < text@.len() - trimmed@.len() ==> is_white_space(text@[i]),
{
    let n: usize = text.unicode_len();
    let mut it = text.chars();
    let mut idx: usize = 0;
    assert(text@.subrange(0, n as int) =~= text@);
    loop
        invariant_except_break
            IteratorSpec::remaining(&it) == text@.subrange(idx as int, n as int),
            leading_len(text@) == idx + leading_len(text@.subrange(idx as int, n as int)),
            it.obeys_prophetic_iter_laws(),
        invariant
            n == text@.len(),
            idx <= n,
        ensures
            leading_len(text@) == idx,
        decreases n - idx,
    {
        let ghost rest = text@.subrange(idx as int, n as int);
        match it.next() {
            Some(c) => {
                assert(c == rest.first());
                if !white_space(c) {
                    break ;
                }
                assert(rest.drop_first() =~= text@.subrange(idx as int + 1, n as int));
                idx = idx + 1;
                assert(IteratorSpec::remaining(&it) =~= text@.subrange(idx as int, n as int));
            },
            None => {
                assert(rest.len() == 0);
                break ;
            },
        }
    }
    proof {
        lemma_leading_len(text@);
    }
    text.substring_char(idx, n)
}

/// `text` without the white space at its two ends.
pub fn trim_ends(text: &str) -> (trimmed: &str)
    ensures
        trimmed@ == trim(text@),
{
    trim_leading(trim_trailing(text))
}

} // verus!
