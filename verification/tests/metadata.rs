use mdr::metadata::{declares_title, has_title_metadata, starts_with_percent_title};

/// The same question, put with the standard library's string functions.
fn reference(content: &str) -> bool {
    if content.starts_with("---\n") {
        if let Some(end) = content[4..].find("\n---") {
            let header = &content[4..4 + end];
            if header
                .lines()
                .any(|l| l.trim_start().to_ascii_lowercase().starts_with("title:"))
            {
                return true;
            }
        }
    }
    if let Some(first_line) = content.lines().next() {
        if first_line.starts_with('%') && first_line.len() > 1 {
            return true;
        }
    }
    false
}

#[test]
fn yaml_block_with_a_title_names_one() {
    assert!(has_title_metadata("---\ntitle: Custom Paper\n---\n\nBody text.\n"));
}

#[test]
fn plain_text_names_no_title() {
    assert!(!has_title_metadata("No title here"));
    assert!(!has_title_metadata("# Title\n\nBody"));
    assert!(!has_title_metadata(""));
}

#[test]
fn yaml_title_may_be_indented_and_in_any_case() {
    assert!(has_title_metadata("---\nauthor: x\n  \tTITLE: y\n---\n"));
    assert!(has_title_metadata("---\n\u{a0}Title: y\n---"));
    assert!(!has_title_metadata("---\nsubtitle: y\n---\n"));
    assert!(!has_title_metadata("---\nx title: y\n---\n"));
}

#[test]
fn yaml_block_must_be_opened_first_and_closed() {
    assert!(!has_title_metadata("---\ntitle: never closed\n"));
    assert!(!has_title_metadata("\n---\ntitle: not first\n---\n"));
    assert!(!has_title_metadata("---\n---\ntitle: after an empty block\n"));
    assert!(!has_title_metadata("---\nauthor: x\n---\ntitle: behind the block\n---\n"));
    assert!(!has_title_metadata("--- \ntitle: x\n---\n"));
}

#[test]
fn percent_line_needs_something_behind_the_percent() {
    assert!(has_title_metadata("% My Title\n% Author\n"));
    assert!(has_title_metadata("%x"));
    assert!(has_title_metadata("%\r"));
    assert!(!has_title_metadata("%"));
    assert!(!has_title_metadata("%\n"));
    assert!(!has_title_metadata("%\r\nrest"));
    assert!(!has_title_metadata("\n% second line"));
    assert!(!has_title_metadata(" % indented"));
}

#[test]
fn parts_answer_for_themselves() {
    let header: Vec<char> = "a: b\n  title: c".chars().collect();
    assert!(declares_title(&header));
    let none: Vec<char> = "a: b\ntitle".chars().collect();
    assert!(!declares_title(&none));
    assert!(!declares_title(&[]));
    let percent: Vec<char> = "%t\n".chars().collect();
    assert!(starts_with_percent_title(&percent));
    assert!(!starts_with_percent_title(&[]));
}

#[test]
fn agrees_with_the_standard_library_on_every_short_document() {
    let alphabet = ['-', '\n', '\r', '%', ' ', 't', 'T', ':', 'x'];
    let mut count = 0u32;
    for len in 0..=6usize {
        let mut index = vec![0usize; len];
        loop {
            let doc: String = index.iter().map(|&i| alphabet[i]).collect();
            assert_eq!(has_title_metadata(&doc), reference(&doc), "{:?}", doc);
            count += 1;
            let mut k = 0;
            while k < len {
                index[k] += 1;
                if index[k] < alphabet.len() {
                    break;
                }
                index[k] = 0;
                k += 1;
            }
            if k == len {
                break;
            }
        }
    }
    assert!(count > 500_000);
}

#[test]
fn agrees_with_the_standard_library_on_yaml_blocks() {
    let lines = [
        "title: a", "Title:", " title: b", "\ttitle: c", "author: d", "", "---", "--- ", "...",
        "TITLE: e\r", "\u{2003}title: f", "xtitle: g", "title", "- title: h", "\r", "%",
    ];
    for a in lines {
        for b in lines {
            for c in lines {
                for ending in ["", "\n", "\n---", "\n---\n", "\r\n---\n"] {
                    let doc = format!("---\n{}\n{}\n{}{}", a, b, c, ending);
                    assert_eq!(has_title_metadata(&doc), reference(&doc), "{:?}", doc);
                }
            }
        }
    }
}
