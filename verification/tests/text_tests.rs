use peek::text::{chars_of, contains, matches_at, same_text, starts_with};

fn chars(s: &str) -> Vec<char> {
    s.chars().collect()
}

#[test]
fn chars_of_keeps_every_character() {
    assert_eq!(chars_of(""), Vec::<char>::new());
    assert_eq!(chars_of("abc"), vec!['a', 'b', 'c']);
    assert_eq!(chars_of("é📂x"), vec!['é', '📂', 'x']);
}

#[test]
fn contains_finds_substrings() {
    assert!(contains(&chars("report_2025.pdf"), &chars("report")));
    assert!(contains(&chars("report_2025.pdf"), &chars("2025")));
    assert!(contains(&chars("report_2025.pdf"), &chars(".pdf")));
    assert!(contains(&chars("report_2025.pdf"), &chars("report_2025.pdf")));
    assert!(contains(&chars("abc"), &chars("")));
    assert!(contains(&chars(""), &chars("")));
    assert!(contains(&chars("aab"), &chars("ab")));
}

#[test]
fn contains_rejects_what_is_not_there() {
    assert!(!contains(&chars("report"), &chars("reports")));
    assert!(!contains(&chars("report"), &chars("Report")));
    assert!(!contains(&chars(""), &chars("a")));
    assert!(!contains(&chars("abab"), &chars("abb")));
}

#[test]
fn starts_with_compares_the_beginning() {
    assert!(starts_with(&chars("/etc/passwd"), &chars("/etc")));
    assert!(starts_with(&chars("/etc"), &chars("/etc")));
    assert!(starts_with(&chars("/etc"), &chars("")));
    assert!(!starts_with(&chars("/et"), &chars("/etc")));
    assert!(!starts_with(&chars("x/etc"), &chars("/etc")));
}

#[test]
fn matches_at_checks_one_position() {
    assert!(matches_at(&chars("hello"), &chars("ell"), 1));
    assert!(!matches_at(&chars("hello"), &chars("ell"), 0));
    assert!(!matches_at(&chars("hello"), &chars("lo"), 4));
    assert!(matches_at(&chars("hello"), &chars(""), 5));
    assert!(!matches_at(&chars("hello"), &chars(""), 6));
    assert!(!matches_at(&chars("hello"), &chars("x"), usize::MAX));
}

#[test]
fn same_text_is_equality() {
    assert!(same_text(&chars("pdf"), &chars("pdf")));
    assert!(same_text(&chars(""), &chars("")));
    assert!(!same_text(&chars("pdf"), &chars("pdg")));
    assert!(!same_text(&chars("pdf"), &chars("pd")));
    assert!(!same_text(&chars("pd"), &chars("pdf")));
}
