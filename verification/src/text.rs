//! Character-level helpers on which the parsers of this crate are built.
//!
//! A string is read as its sequence of characters. The tests that the
//! standard library offers on strings (prefix, substring, white space, ASCII
//! case) are stated here over such sequences and decided by plain loops.

use vstd::prelude::*;
use vstd::std_specs::iter::IteratorSpec;

verus! {

/// The characters of `s`, in order.
pub fn chars_of(s: &str) -> (chars: Vec<char>)
    ensures
        chars@ == s@,
{
    let mut chars: Vec<char> = Vec::new();
    for c in it: s.chars()
        invariant
            chars@ == it.seq().take(it.index()),
    {
        chars.push(c);
    }
    chars
}

/// The texts of a list of strings, in order.
pub open spec fn texts(strings: Seq<String>) -> Seq<Seq<char>> {
    Seq::new(strings.len(), |k: int| strings[k]@)
}

/// Whether two sequences hold the same characters.
pub fn same_chars(a: &[char], b: &[char]) -> (same: bool)
    ensures
        same == (a@ == b@),
{
    if a.len() != b.len() {
        return false;
    }
    let mut i: usize = 0;
    while i < a.len()
        invariant
            a@.len() == b@.len(),
            i <= a@.len(),
            forall|k: int| 0 <= k < i ==> a@[k] == b@[k],
        decreases a.len() - i,
    {
        if a[i] != b[i] {
            return false;
        }
        i += 1;
    }
    assert(a@ =~= b@);
    true
}

/// Whether `pattern` stands in `text` at position `at`.
pub open spec fn occurs_at(text: Seq<char>, at: int, pattern: Seq<char>) -> bool {
    &&& 0 <= at
    &&& at + pattern.len() <= text.len()
    &&& text.subrange(at, at + pattern.len()) == pattern
}

/// Whether `pattern` stands somewhere in `text`.
pub open spec fn occurs_in(text: Seq<char>, pattern: Seq<char>) -> bool {
    exists|at: int| occurs_at(text, at, pattern)
}

/// Whether `at` is the first position from `from` on where `pattern` stands
/// in `text`.
pub open spec fn first_occurrence(text: Seq<char>, from: int, pattern: Seq<char>, at: int) -> bool {
    &&& from <= at
    &&& occurs_at(text, at, pattern)
    &&& forall|k: int| from <= k < at ==> !occurs_at(text, k, pattern)
}

/// Decides whether `pattern` stands in `text` at position `at`.
pub fn matches_at(text: &[char], at: usize, pattern: &[char]) -> (found: bool)
    ensures
        found == occurs_at(text@, at as int, pattern@),
{
    if pattern.len() > text.len() || at > text.len() - pattern.len() {
        return false;
    }
    let mut i: usize = 0;
    while i < pattern.len()
        invariant
            at + pattern.len() <= text.len(),
            i <= pattern.len(),
            forall|k: int| 0 <= k < i ==> text@[at + k] == pattern@[k],
        decreases pattern.len() - i,
    {
        if text[at + i] != pattern[i] {
            assert(text@.subrange(at as int, at + pattern@.len())[i as int] != pattern@[i as int]);
            return false;
        }
        i += 1;
    }
    assert(text@.subrange(at as int, at + pattern@.len()) =~= pattern@);
    true
}

/// Finds the first position from `from` on where `pattern` stands in `text`.
pub fn find_from(text: &[char], from: usize, pattern: &[char]) -> (found: Option<usize>)
    ensures
        found matches Some(at) ==> first_occurrence(text@, from as int, pattern@, at as int),
        found is None ==> forall|k: int| from <= k ==> !occurs_at(text@, k, pattern@),
{
    if pattern.len() > text.len() {
        return None;
    }
    let last: usize = text.len() - pattern.len();
    let mut at: usize = from;
    while at <= last
        invariant
            last == text.len() - pattern.len(),
            from <= at,
            forall|k: int| from <= k < at ==> !occurs_at(text@, k, pattern@),
        decreases last - at,
    {
        if matches_at(text, at, pattern) {
            return Some(at);
        }
        if at == last {
            return None;
        }
        at += 1;
    }
    None
}

/// Decides whether `pattern` stands somewhere in `text`.
pub fn contains(text: &[char], pattern: &[char]) -> (found: bool)
    ensures
        found == occurs_in(text@, pattern@),
{
    match find_from(text, 0, pattern) {
        Some(at) => {
            assert(occurs_at(text@, at as int, pattern@));
            true
        },
        None => false,
    }
}

/// Whether a character is white space as Unicode defines it (`White_Space`).
pub open spec fn is_white_space(c: char) -> bool {
    let code = c as u32;
    ||| 0x09 <= code <= 0x0D
    ||| code == 0x20
    ||| code == 0x85
    ||| code == 0xA0
    ||| code == 0x1680
    ||| 0x2000 <= code <= 0x200A
    ||| code == 0x2028
    ||| code == 0x2029
    ||| code == 0x202F
    ||| code == 0x205F
    ||| code == 0x3000
}

/// Decides whether a character is white space.
pub fn is_whitespace(c: char) -> (white: bool)
    ensures
        white == is_white_space(c),
{
    let code: u32 = c as u32;
    (0x09 <= code && code <= 0x0D) || code == 0x20 || code == 0x85 || code == 0xA0 || code
        == 0x1680 || (0x2000 <= code && code <= 0x200A) || code == 0x2028 || code == 0x2029
        || code == 0x202F || code == 0x205F || code == 0x3000
}

/// A character with an ASCII capital turned into its small letter, and every
/// other character as it is.
pub open spec fn ascii_lower(c: char) -> char {
    if 'A' <= c <= 'Z' {
        ((c as u32) + 32) as char
    } else {
        c
    }
}

/// Lowers an ASCII capital.
pub fn to_ascii_lower(c: char) -> (lowered: char)
    ensures
        lowered == ascii_lower(c),
{
    if 'A' <= c && c <= 'Z' {
        ((c as u8) + 32) as char
    } else {
        c
    }
}

/// Whether `word` stands in `text` at position `at` when ASCII case is
/// ignored in `text`. `word` is meant to hold no capitals.
pub open spec fn keyword_at(text: Seq<char>, at: int, word: Seq<char>) -> bool {
    &&& 0 <= at
    &&& at + word.len() <= text.len()
    &&& forall|k: int| 0 <= k < word.len() ==> ascii_lower(#[trigger] text[at + k]) == word[k]
}

/// Decides whether `word` stands in `text` at position `at`, ASCII case of
/// `text` ignored.
pub fn matches_keyword_at(text: &[char], at: usize, word: &[char]) -> (found: bool)
    ensures
        found == keyword_at(text@, at as int, word@),
{
    if word.len() > text.len() || at > text.len() - word.len() {
        return false;
    }
    let mut i: usize = 0;
    while i < word.len()
        invariant
            at + word.len() <= text.len(),
            i <= word.len(),
            forall|k: int| 0 <= k < i ==> ascii_lower(#[trigger] text@[at + k]) == word@[k],
        decreases word.len() - i,
    {
        if to_ascii_lower(text[at + i]) != word[i] {
            assert(ascii_lower(text@[at + i]) != word@[i as int]);
            return false;
        }
        i += 1;
    }
    true
}

} // verus!
