use request_json::text::{chars_of, matches_ignoring_case, same_letter, starts_with};
use request_json::validate::contains_nul;

fn chars(s: &str) -> Vec<char> {
    s.chars().collect()
}

#[test]
fn contains_nul_finds_the_code_point() {
    assert!(!contains_nul(""));
    assert!(!contains_nul("abc"));
    assert!(contains_nul("\0"));
    assert!(contains_nul("abc\0"));
    assert!(contains_nul("\0abc"));
    assert!(contains_nul("a\0c"));
    assert!(!contains_nul("\u{100}\u{1000}"));
    assert!(contains_nul("\u{100}\0\u{1000}"));
}

#[test]
fn chars_of_lists_code_points() {
    assert_eq!(chars_of(""), Vec::<char>::new());
    assert_eq!(chars_of("abc"), vec!['a', 'b', 'c']);
    assert_eq!(chars_of("é日"), vec!['é', '日']);
}

#[test]
fn same_letter_folds_ascii_capitals_only() {
    assert!(same_letter('a', 'a'));
    assert!(same_letter('a', 'A'));
    assert!(same_letter('A', 'a'));
    assert!(same_letter('Z', 'z'));
    assert!(same_letter('-', '-'));
    assert!(!same_letter('a', 'b'));
    assert!(!same_letter('@', '`'));
    assert!(!same_letter('[', '{'));
    assert!(!same_letter('É', 'é'));
    assert!(!same_letter('0', 'P'));
}

#[test]
fn matches_ignoring_case_compares_whole_names() {
    assert!(matches_ignoring_case("Content-Type", &chars("Content-Type")));
    assert!(matches_ignoring_case("content-type", &chars("Content-Type")));
    assert!(matches_ignoring_case("CONTENT-TYPE", &chars("content-type")));
    assert!(matches_ignoring_case("", &chars("")));
    assert!(!matches_ignoring_case("Content-Type", &chars("Content-Typ")));
    assert!(!matches_ignoring_case("Content-Typ", &chars("Content-Type")));
    assert!(!matches_ignoring_case("Content_Type", &chars("Content-Type")));
    assert!(!matches_ignoring_case("", &chars("a")));
    assert!(!matches_ignoring_case("a", &chars("")));
}

#[test]
fn starts_with_compares_as_written() {
    assert!(starts_with("application/json", &chars("application/json")));
    assert!(starts_with("application/json; charset=utf-8", &chars("application/json")));
    assert!(starts_with("application/jsonlines", &chars("application/json")));
    assert!(starts_with("anything", &chars("")));
    assert!(starts_with("", &chars("")));
    assert!(!starts_with("", &chars("a")));
    assert!(!starts_with("application/jso", &chars("application/json")));
    assert!(!starts_with("Application/json", &chars("application/json")));
    assert!(!starts_with("text/plain", &chars("application/json")));
    assert!(!starts_with(" application/json", &chars("application/json")));
}
