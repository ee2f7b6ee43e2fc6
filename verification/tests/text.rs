use fullscreenizer::text::ends_with;
use fullscreenizer::text::find_from;
use fullscreenizer::text::starts_with;

#[test]
fn find_locates_the_first_occurrence() {
    assert_eq!(find_from("abcabc", "bc", 0), Some(1));
    assert_eq!(find_from("abcabc", "bc", 2), Some(4));
    assert_eq!(find_from("abcabc", "bc", 5), None);
    assert_eq!(find_from("abcabc", "zz", 0), None);
}

#[test]
fn find_of_the_empty_pattern() {
    assert_eq!(find_from("abc", "", 2), Some(2));
    assert_eq!(find_from("abc", "", 4), None);
}

#[test]
fn prefix_and_suffix_checks() {
    assert!(starts_with("icon-targetsize-16.png", "icon"));
    assert!(!starts_with("ic", "icon"));
    assert!(ends_with("icon.png", ".png"));
    assert!(!ends_with("icon.png", ".jpg"));
    assert!(ends_with("x", ""));
}
