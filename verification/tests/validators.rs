use paste_service::validators::{is_invalid_document, is_invalid_edit_code, is_invalid_slug};

#[test]
fn slug_of_four_to_thirty_two_alphanumerics_is_valid() {
    assert!(!is_invalid_slug("abcd"));
    assert!(!is_invalid_slug("abcd1234"));
    assert!(!is_invalid_slug("ABCxyz0189"));
    assert!(!is_invalid_slug(&"a".repeat(32)));
}

#[test]
fn slug_that_is_too_short_or_too_long_is_invalid() {
    assert!(is_invalid_slug(""));
    assert!(is_invalid_slug("abc"));
    assert!(is_invalid_slug(&"a".repeat(33)));
}

#[test]
fn slug_with_other_characters_is_invalid() {
    assert!(is_invalid_slug("abc-def"));
    assert!(is_invalid_slug("abc_def"));
    assert!(is_invalid_slug("abc def"));
    assert!(is_invalid_slug("abcd/"));
    assert!(is_invalid_slug("abcd:"));
    assert!(is_invalid_slug("abcd@"));
    assert!(is_invalid_slug("abcd["));
    assert!(is_invalid_slug("abcd`"));
    assert!(is_invalid_slug("abcd{"));
    assert!(is_invalid_slug("abcdé"));
    assert!(is_invalid_slug("日本語のスラグ"));
}

#[test]
fn edit_code_of_four_to_thirty_two_ascii_characters_is_valid() {
    assert!(!is_invalid_edit_code("abcd"));
    assert!(!is_invalid_edit_code("wrong-code"));
    assert!(!is_invalid_edit_code("p@ss w0rd!"));
    assert!(!is_invalid_edit_code("\u{0}\u{7f}ab"));
    assert!(!is_invalid_edit_code(&"x".repeat(32)));
}

#[test]
fn edit_code_that_is_too_short_too_long_or_not_ascii_is_invalid() {
    assert!(is_invalid_edit_code(""));
    assert!(is_invalid_edit_code("abc"));
    assert!(is_invalid_edit_code(&"x".repeat(33)));
    assert!(is_invalid_edit_code("abcdé"));
    assert!(is_invalid_edit_code("\u{80}abcd"));
}

#[test]
fn document_is_measured_in_bytes() {
    assert!(!is_invalid_document(""));
    assert!(!is_invalid_document(&"a".repeat(200_000)));
    assert!(is_invalid_document(&"a".repeat(200_001)));
    // 100,000 characters of two bytes each are still within the ceiling,
    // one more character is not.
    assert!(!is_invalid_document(&"é".repeat(100_000)));
    assert!(is_invalid_document(&"é".repeat(100_001)));
}
