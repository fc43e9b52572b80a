use inference_bridge::text::chars_of;
use inference_bridge::text::contains_text;
use inference_bridge::text::mentions;

fn chars(s: &str) -> Vec<char> {
    s.chars().collect()
}

#[test]
fn chars_of_keeps_every_character() {
    assert_eq!(chars_of(""), Vec::<char>::new());
    assert_eq!(chars_of("a✓b"), vec!['a', '✓', 'b']);
}

#[test]
fn finds_a_run_anywhere() {
    assert!(contains_text(&chars("Python 3.10.13"), &chars("3.10.13")));
    assert!(contains_text(&chars("3.10.13 (main)"), &chars("3.10.13")));
    assert!(contains_text(&chars("x3.10.13y"), &chars("3.10.13")));
    assert!(contains_text(&chars("abc"), &chars("abc")));
}

#[test]
fn rejects_what_is_not_there() {
    assert!(!contains_text(&chars("Python 3.9.0"), &chars("3.10.13")));
    assert!(!contains_text(&chars("3.10.1"), &chars("3.10.13")));
    assert!(!contains_text(&chars("3.1 0.13"), &chars("3.10.13")));
    assert!(!contains_text(&chars(""), &chars("a")));
    assert!(!contains_text(&chars("aab"), &chars("aba")));
}

#[test]
fn empty_needle_is_in_every_text() {
    assert!(contains_text(&chars(""), &chars("")));
    assert!(contains_text(&chars("abc"), &chars("")));
}

#[test]
fn finds_after_a_partial_match() {
    assert!(contains_text(&chars("aaab"), &chars("aab")));
    assert!(contains_text(&chars("3.10.3.10.13"), &chars("3.10.13")));
}

#[test]
fn substring_match_is_not_version_comparison() {
    assert!(mentions("Python 3.10.130", "3.10.13"));
    assert!(mentions("Python 13.10.13", "3.10.13"));
    assert!(!mentions("Python 3.10.14", "3.10.13"));
    assert!(!mentions("Python 3.11.0", "3.10.13"));
}

#[test]
fn mentions_compares_characters_not_bytes() {
    assert!(mentions("version ✓ 3.10", "✓ 3"));
    assert!(!mentions("version ✓ 3.10", "✗"));
}
