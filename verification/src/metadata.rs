//! Whether a Markdown source names its own title.
//!
//! The renderer is given a fallback title only where the source has none. A
//! source has one in either of two forms: a YAML block at its very start, with
//! a `title:` key on one of its lines, or a first line that begins with `%`
//! and goes on.

use vstd::prelude::*;
use vstd::slice::slice_subrange;
use crate::text::{
    chars_of, find_from, first_occurrence, is_white_space, is_whitespace, keyword_at,
    matches_at, matches_keyword_at, occurs_at,
};

verus! {

/// Whether a line begins at `at`: at the start of the text, or right behind a
/// line feed.
pub open spec fn line_starts_at(text: Seq<char>, at: int) -> bool {
    0 <= at <= text.len() && (at == 0 || text[at - 1] == '\n')
}

/// Whether `text` holds nothing but white space within one line from `from`
/// up to `to`.
pub open spec fn is_indent(text: Seq<char>, from: int, to: int) -> bool {
    from <= to <= text.len() && forall|k: int|
        from <= k < to ==> is_white_space(#[trigger] text[k]) && text[k] != '\n'
}

/// Whether the line that begins at `start` sets a title: after its leading
/// white space comes `title:`, in any ASCII case.
pub open spec fn title_line_at(text: Seq<char>, start: int) -> bool {
    line_starts_at(text, start) && exists|key: int|
        is_indent(text, start, key) && #[trigger] keyword_at(text, key, "title:"@)
}

/// Whether some line of `text` sets a title.
pub open spec fn has_title_line(text: Seq<char>) -> bool {
    exists|start: int| #[trigger] title_line_at(text, start)
}

/// The YAML block at the start of a document: what stands between the opening
/// `---` line and the first line feed that `---` follows. `None` where the
/// document does not open with such a line, or the block is never closed.
pub open spec fn yaml_header(content: Seq<char>) -> Option<Seq<char>> {
    if occurs_at(content, 0, "---\n"@) && exists|end: int|
        first_occurrence(content, 4, "\n---"@, end) {
        let end = choose|end: int| first_occurrence(content, 4, "\n---"@, end);
        Some(content.subrange(4, end))
    } else {
        None
    }
}

/// The first line of a document, without its line ending: a line feed, or a
/// carriage return and a line feed.
pub open spec fn first_line(content: Seq<char>) -> Seq<char> {
    if exists|end: int| first_occurrence(content, 0, "\n"@, end) {
        let end = choose|end: int| first_occurrence(content, 0, "\n"@, end);
        if end > 0 && content[end - 1] == '\r' {
            content.subrange(0, end - 1)
        } else {
            content.subrange(0, end)
        }
    } else {
        content
    }
}

/// Whether the first line is a `%` title line: a `%` with something behind it.
pub open spec fn has_percent_title(content: Seq<char>) -> bool {
    first_line(content).len() > 1 && first_line(content)[0] == '%'
}

/// Whether a document names its own title, in its YAML block or on a `%`
/// line.
pub open spec fn names_title(content: Seq<char>) -> bool {
    (yaml_header(content) matches Some(header) && has_title_line(header)) || has_percent_title(
        content,
    )
}

/// The first occurrence of a pattern from a position on is one position.
pub proof fn lemma_first_occurrence_is_unique(
    text: Seq<char>,
    from: int,
    pattern: Seq<char>,
    a: int,
    b: int,
)
    requires
        first_occurrence(text, from, pattern, a),
        first_occurrence(text, from, pattern, b),
    ensures
        a == b,
{
}

/// Decides whether some line of `text` sets a title.
pub fn declares_title(text: &[char]) -> (found: bool)
    ensures
        found == has_title_line(text@),
{
    let key = chars_of("title:");
    proof {
        reveal_strlit("title:");
    }
    let mut start: usize = 0;
    loop
        invariant
            key@ == "title:"@,
            key@.len() == 6,
            key@[0] == 't',
            line_starts_at(text@, start as int),
            forall|s: int| 0 <= s < start ==> !title_line_at(text@, s),
        decreases text.len() - start,
    {
        let mut at: usize = start;
        while at < text.len() && is_whitespace(text[at]) && text[at] != '\n'
            invariant
                start <= at <= text.len(),
                is_indent(text@, start as int, at as int),
            decreases text.len() - at,
        {
            at += 1;
        }
        if matches_keyword_at(text, at, key.as_slice()) {
            assert(title_line_at(text@, start as int));
            return true;
        }
        assert(!title_line_at(text@, start as int)) by {
            assert forall|k: int| is_indent(text@, start as int, k) implies !keyword_at(
                text@,
                k,
                "title:"@,
            ) by {
                if k < at {
                    if keyword_at(text@, k, "title:"@) {
                        assert(crate::text::ascii_lower(text@[k + 0]) == "title:"@[0]);
                        assert(!is_white_space(text@[k]));
                    }
                } else if k > at {
                    assert(is_white_space(text@[at as int]) && text@[at as int] != '\n');
                }
            }
        }
        let mut end: usize = at;
        while end < text.len() && text[end] != '\n'
            invariant
                at <= end <= text.len(),
                start <= at,
                is_indent(text@, start as int, at as int),
                forall|k: int| start <= k < end ==> text@[k] != '\n',
            decreases text.len() - end,
        {
            end += 1;
        }
        if end == text.len() {
            assert forall|s: int| !title_line_at(text@, s) by {
                if start < s <= text@.len() {
                    assert(text@[s - 1] != '\n');
                }
            }
            return false;
        }
        assert forall|s: int| 0 <= s < end + 1 implies !title_line_at(text@, s) by {
            if start < s {
                assert(text@[s - 1] != '\n');
            }
        }
        start = end + 1;
    }
}

/// Decides whether the first line of `content` is a `%` title line.
pub fn starts_with_percent_title(content: &[char]) -> (found: bool)
    ensures
        found == has_percent_title(content@),
{
    let feed = chars_of("\n");
    proof {
        reveal_strlit("\n");
    }
    let length: usize = match find_from(content, 0, feed.as_slice()) {
        Some(end) => {
            proof {
                let chosen = choose|e: int| first_occurrence(content@, 0, "\n"@, e);
                lemma_first_occurrence_is_unique(content@, 0, "\n"@, end as int, chosen);
            }
            if end > 0 && content[end - 1] == '\r' {
                end - 1
            } else {
                end
            }
        },
        None => content.len(),
    };
    assert(first_line(content@) =~= content@.subrange(0, length as int));
    length > 1 && content[0] == '%'
}

/// Decides whether a document names its own title.
pub fn has_title_metadata(content: &str) -> (found: bool)
    ensures
        found == names_title(content@),
{
    let text = chars_of(content);
    let open = chars_of("---\n");
    let close = chars_of("\n---");
    proof {
        reveal_strlit("---\n");
        reveal_strlit("\n---");
    }
    if matches_at(text.as_slice(), 0, open.as_slice()) {
        if let Some(end) = find_from(text.as_slice(), 4, close.as_slice()) {
            proof {
                let chosen = choose|e: int| first_occurrence(text@, 4, "\n---"@, e);
                lemma_first_occurrence_is_unique(text@, 4, "\n---"@, end as int, chosen);
            }
            let header = slice_subrange(text.as_slice(), 4, end);
            if declares_title(header) {
                return true;
            }
        }
    }
    starts_with_percent_title(text.as_slice())
}

} // verus!
