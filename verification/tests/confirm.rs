use mdr::confirm::is_affirmative;

/// The same question, put with the standard library's string functions.
fn reference(response: &str) -> bool {
    let normalized = response.trim().to_ascii_lowercase();
    normalized == "y" || normalized == "yes"
}

#[test]
fn yes_and_y_agree_in_any_case_with_space_around() {
    assert!(is_affirmative("y"));
    assert!(is_affirmative("yes\n"));
    assert!(is_affirmative("  YeS \r\n"));
    assert!(is_affirmative("\tY\u{a0}"));
}

#[test]
fn everything_else_declines() {
    assert!(!is_affirmative(""));
    assert!(!is_affirmative("\n"));
    assert!(!is_affirmative("n\n"));
    assert!(!is_affirmative("ye"));
    assert!(!is_affirmative("yess"));
    assert!(!is_affirmative("y es"));
    assert!(!is_affirmative("yes please"));
    assert!(!is_affirmative("oh yes"));
    assert!(!is_affirmative("\u{ff59}"));
}

#[test]
fn agrees_with_the_standard_library_on_every_short_answer() {
    let alphabet = ['y', 'Y', 'e', 'E', 's', 'S', ' ', '\n', 'n', '\u{2028}'];
    for len in 0..=5usize {
        let mut index = vec![0usize; len];
        loop {
            let answer: String = index.iter().map(|&i| alphabet[i]).collect();
            assert_eq!(is_affirmative(&answer), reference(&answer), "{:?}", answer);
            let mut k = 0;
            while k < len {
                index[k] += 1;
                if index[k] < alphabet.len() {
                    break;
                }
                index[k] = 0;
                k += 1;
            }
            if k == len {
                break;
            }
        }
    }
}
