use gcs_rsync::filter::is_selected;
use gcs_rsync::filter::match_with;
use gcs_rsync::{RSyncError, RSyncFilter, RelativePath};

fn name(text: &str) -> RelativePath {
    RelativePath::new(text).unwrap()
}

#[test]
fn a_filter_matches_anywhere_in_a_name() {
    let filter = RSyncFilter::from_str("b+").unwrap();
    assert!(filter.is_match(&name("abc")));
    assert!(!filter.is_match(&name("acd")));
    assert!(!filter.is_match(&name("B")));
    let anchored = RSyncFilter::from_str("^logs/.*\\.txt$").unwrap();
    assert!(anchored.is_match(&name("/logs/today.txt")));
    assert!(!anchored.is_match(&name("old/logs/today.txt")));
}

#[test]
fn a_broken_pattern_is_refused() {
    assert!(matches!(
        RSyncFilter::from_str("a("),
        Err(RSyncError::InvalidRegexError)
    ));
    assert!(matches!(
        RSyncFilter::new(&Some("[")),
        Err(RSyncError::InvalidRegexError)
    ));
}

#[test]
fn a_missing_pattern_is_refused() {
    assert!(matches!(
        RSyncFilter::new(&None),
        Err(RSyncError::InvalidRegexError)
    ));
    assert!(RSyncFilter::new(&Some("a")).unwrap().is_match(&name("cab")));
}

#[test]
fn a_compiled_expression_makes_a_filter() {
    let filter = RSyncFilter::from_compiled(regex::Regex::new("x$")).unwrap();
    assert!(filter.is_match(&name("ax")));
    assert!(!filter.is_match(&name("xa")));
    assert!(matches!(
        RSyncFilter::from_compiled(regex::Regex::new("*")),
        Err(RSyncError::InvalidRegexError)
    ));
}

#[test]
fn a_copy_of_a_filter_matches_the_same() {
    let copy = RSyncFilter::from_str("^a").unwrap().clone();
    assert!(copy.is_match(&name("ab")));
    assert!(!copy.is_match(&name("ba")));
}

#[test]
fn a_missing_filter_says_nothing() {
    let filter = Some(RSyncFilter::from_str("a").unwrap());
    assert_eq!(match_with(&filter, &name("a")), Some(true));
    assert_eq!(match_with(&filter, &name("b")), Some(false));
    assert_eq!(match_with(&None, &name("a")), None);
}

#[test]
fn selection_by_two_filters() {
    assert!(is_selected(None, None));
    assert!(is_selected(Some(true), None));
    assert!(!is_selected(Some(false), None));
    assert!(is_selected(None, Some(false)));
    assert!(!is_selected(None, Some(true)));
    assert!(is_selected(Some(true), Some(false)));
    assert!(!is_selected(Some(true), Some(true)));
    assert!(!is_selected(Some(false), Some(false)));
    assert!(!is_selected(Some(false), Some(true)));
}
