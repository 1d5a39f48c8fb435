//! The answer to "Overwrite? [y/N]".
//!
//! Only `y` and `yes` agree, in any ASCII case and with white space around
//! them. Everything else, the empty answer too, declines.

use vstd::prelude::*;
use crate::text::{chars_of, is_white_space, is_whitespace, keyword_at, matches_keyword_at};

verus! {

/// Whether `text` holds nothing but white space from `from` up to `to`.
pub open spec fn is_blank(text: Seq<char>, from: int, to: int) -> bool {
    0 <= from <= to <= text.len() && forall|k: int|
        from <= k < to ==> is_white_space(#[trigger] text[k])
}

/// Whether `text` is `word`, in any ASCII case, with nothing but white space
/// before and behind it.
pub open spec fn is_word(text: Seq<char>, word: Seq<char>) -> bool {
    exists|at: int|
        is_blank(text, 0, at) && #[trigger] keyword_at(text, at, word) && is_blank(
            text,
            at + word.len(),
            text.len() as int,
        )
}

/// Whether an answer agrees.
pub open spec fn agrees(answer: Seq<char>) -> bool {
    is_word(answer, "y"@) || is_word(answer, "yes"@)
}

/// Decides whether `text` holds nothing but white space from `from` on.
fn blank_from(text: &[char], from: usize) -> (blank: bool)
    requires
        from <= text.len(),
    ensures
        blank == is_blank(text@, from as int, text@.len() as int),
{
    let mut i: usize = from;
    while i < text.len()
        invariant
            from <= i <= text.len(),
            is_blank(text@, from as int, i as int),
        decreases text.len() - i,
    {
        if !is_whitespace(text[i]) {
            return false;
        }
        i += 1;
    }
    true
}

/// Decides whether an answer agrees to overwriting.
pub fn is_affirmative(answer: &str) -> (yes: bool)
    ensures
        yes == agrees(answer@),
{
    let text = chars_of(answer);
    let short = chars_of("y");
    let long = chars_of("yes");
    proof {
        reveal_strlit("y");
        reveal_strlit("yes");
    }
    let mut at: usize = 0;
    while at < text.len() && is_whitespace(text[at])
        invariant
            at <= text.len(),
            is_blank(text@, 0, at as int),
        decreases text.len() - at,
    {
        at += 1;
    }
    // `at` is where the answer proper begins: the only place a word can stand.
    assert forall|word: Seq<char>, k: int|
        word.len() > 0 && !is_white_space(word[0]) && is_blank(text@, 0, k) && keyword_at(
            text@,
            k,
            word,
        ) implies k == at by {
        assert(crate::text::ascii_lower(text@[k + 0]) == word[0]);
        assert(!is_white_space(text@[k]));
        if k > at {
            assert(is_white_space(text@[at as int]));
        }
    }
    let long_fits = matches_keyword_at(text.as_slice(), at, long.as_slice()) && blank_from(
        text.as_slice(),
        at + 3,
    );
    let short_fits = matches_keyword_at(text.as_slice(), at, short.as_slice()) && blank_from(
        text.as_slice(),
        at + 1,
    );
    short_fits || long_fits
}

} // verus!
