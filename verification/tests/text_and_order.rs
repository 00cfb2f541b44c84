use std::cmp::Ordering;

use rewire_viewer::order::{compare_count, compare_text};
use rewire_viewer::text::{starts_with, trim_start_matches};

#[test]
fn starts_with_checks_the_prefix() {
    assert!(starts_with("/rewire/topics/chatter", "/rewire/topics/"));
    assert!(!starts_with("/rewire/topics", "/rewire/topics/"));
    assert!(!starts_with("/rewire/nodes/a", "/rewire/topics/"));
    assert!(starts_with("anything", ""));
    assert!(starts_with("ünïcode", "ün"));
}

#[test]
fn trim_start_matches_removes_every_leading_repetition() {
    assert_eq!(trim_start_matches("/rewire/topics/chatter", "/rewire/topics"), "/chatter");
    assert_eq!(
        trim_start_matches("/rewire/topics/rewire/topics/x", "/rewire/topics"),
        "/x"
    );
    for (s, p) in [("/rewire/topics/rewire/topics/x", "/rewire/topics"), ("aaa", "a"), ("aab", "aa")] {
        assert_eq!(trim_start_matches(s, p), s.trim_start_matches(p));
    }
    assert_eq!(trim_start_matches("ababx", "ab"), "x");
    assert_eq!(trim_start_matches("abab", "ab"), "");
    assert_eq!(trim_start_matches("xab", "ab"), "xab");
    assert_eq!(trim_start_matches("same", ""), "same");
    assert_eq!(
        trim_start_matches("ééa", "é"),
        "ééa".trim_start_matches("é")
    );
}

#[test]
fn compare_text_is_the_order_of_strings() {
    let samples = ["", "a", "ab", "b", "B", "é", "z", "abc", "ab\u{10000}", "ab\u{ff}"];
    for x in samples.iter() {
        for y in samples.iter() {
            assert_eq!(compare_text(x, y), x.cmp(y), "{x:?} vs {y:?}");
            assert_eq!(compare_text(x, y), compare_text(y, x).reverse());
        }
    }
    assert_eq!(compare_text("apple", "banana"), Ordering::Less);
    assert_eq!(compare_text("apple", "app"), Ordering::Greater);
    assert_eq!(compare_text("same", "same"), Ordering::Equal);
}

#[test]
fn compare_count_is_numeric() {
    assert_eq!(compare_count(2, 10), Ordering::Less);
    assert_eq!(compare_count(10, 2), Ordering::Greater);
    assert_eq!(compare_count(7, 7), Ordering::Equal);
}
