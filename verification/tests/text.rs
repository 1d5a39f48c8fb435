use mdr::text::{
    chars_of, contains, find_from, is_whitespace, matches_at, matches_keyword_at, same_chars,
    to_ascii_lower,
};

fn chars(s: &str) -> Vec<char> {
    s.chars().collect()
}

#[test]
fn chars_of_keeps_every_character_in_order() {
    assert_eq!(chars_of(""), Vec::<char>::new());
    assert_eq!(chars_of("a\u{e9}\u{1F600}z"), vec!['a', '\u{e9}', '\u{1F600}', 'z']);
}

#[test]
fn same_chars_is_equality_of_text() {
    assert!(same_chars(&chars(""), &chars("")));
    assert!(same_chars(&chars("--watch"), &chars("--watch")));
    assert!(!same_chars(&chars("--watch"), &chars("--watc")));
    assert!(!same_chars(&chars("-w"), &chars("-W")));
    assert!(!same_chars(&chars("abc"), &chars("abd")));
}

#[test]
fn white_space_is_what_the_standard_library_calls_white_space() {
    let mut code: u32 = 0;
    while code <= 0x10FFFF {
        if let Some(c) = char::from_u32(code) {
            assert_eq!(is_whitespace(c), c.is_whitespace(), "U+{:04X}", code);
        }
        code += 1;
    }
}

#[test]
fn ascii_lowering_is_what_the_standard_library_does() {
    let mut code: u32 = 0;
    while code <= 0x10FFFF {
        if let Some(c) = char::from_u32(code) {
            assert_eq!(to_ascii_lower(c), c.to_ascii_lowercase(), "U+{:04X}", code);
        }
        code += 1;
    }
}

#[test]
fn matches_at_needs_the_whole_pattern_inside_the_text() {
    let text = chars("hello");
    assert!(matches_at(&text, 0, &chars("he")));
    assert!(matches_at(&text, 3, &chars("lo")));
    assert!(!matches_at(&text, 4, &chars("lo")));
    assert!(!matches_at(&text, 9, &chars("")));
    assert!(matches_at(&text, 5, &chars("")));
    assert!(matches_at(&text, 0, &chars("hello")));
    assert!(!matches_at(&text, 0, &chars("hello!")));
}

#[test]
fn find_and_contains_agree_with_the_standard_library() {
    let texts = ["", "a", "aaa", "abcabc", "/live.js", "x/live.jsx", "/live.j", "\u{e9}/liv\u{e9}"];
    let patterns = ["", "a", "aa", "bc", "/live.js", "\u{e9}", "cab", "abcabcabc"];
    for text in texts {
        for pattern in patterns {
            let found = find_from(&chars(text), 0, &chars(pattern));
            let expected = text.find(pattern).map(|byte| text[..byte].chars().count());
            assert_eq!(found, expected, "{:?} in {:?}", pattern, text);
            assert_eq!(contains(&chars(text), &chars(pattern)), text.contains(pattern));
        }
    }
}

#[test]
fn find_from_skips_what_lies_before_the_start() {
    let text = chars("abcabc");
    assert_eq!(find_from(&text, 1, &chars("abc")), Some(3));
    assert_eq!(find_from(&text, 4, &chars("abc")), None);
    assert_eq!(find_from(&text, 6, &chars("")), Some(6));
    assert_eq!(find_from(&text, 7, &chars("")), None);
}

#[test]
fn keyword_match_ignores_ascii_case_of_the_text_only() {
    let word = chars("title:");
    assert!(matches_keyword_at(&chars("TiTlE: x"), 0, &word));
    assert!(matches_keyword_at(&chars("  title:"), 2, &word));
    assert!(!matches_keyword_at(&chars("title"), 0, &word));
    assert!(!matches_keyword_at(&chars("titel:"), 0, &word));
    assert!(!matches_keyword_at(&chars("title:"), 0, &chars("TITLE:")));
}
