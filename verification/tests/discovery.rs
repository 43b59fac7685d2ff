use cr2_to_jpg::paths::{glob_pattern, match_rules};
use glob::{MatchOptions, Pattern};

fn options() -> MatchOptions {
    let rules = match_rules();
    MatchOptions {
        case_sensitive: rules.case_sensitive,
        require_literal_separator: rules.require_literal_separator,
        require_literal_leading_dot: rules.require_literal_leading_dot,
    }
}

#[test]
fn extension_matches_in_any_case() {
    let pattern = Pattern::new(&glob_pattern("shots", false)).expect("the pattern is well formed");
    assert!(pattern.matches_with("shots/IMG_0001.CR2", options()));
    assert!(pattern.matches_with("shots/img_0002.cr2", options()));
    assert!(pattern.matches_with("shots/img_0003.Cr2", options()));
    assert!(!pattern.matches_with("shots/img_0004.jpg", options()));
    assert!(!pattern.matches_with("shots/img_0005.cr2.txt", options()));
}

#[test]
fn recursive_pattern_matches_at_any_depth() {
    let pattern = Pattern::new(&glob_pattern("shots", true)).expect("the pattern is well formed");
    assert!(pattern.matches_with("shots/a.cr2", options()));
    assert!(pattern.matches_with("shots/2020/a.cr2", options()));
    assert!(pattern.matches_with("shots/2020/07/A.CR2", options()));
    assert!(!pattern.matches_with("shots/2020/a.png", options()));
}

#[test]
fn patterns_with_odd_directories_are_well_formed() {
    assert!(Pattern::new(&glob_pattern(".", false)).is_ok());
    assert!(Pattern::new(&glob_pattern("/srv/raw images", true)).is_ok());
}
