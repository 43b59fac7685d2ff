use cr2_to_jpg::paths::{find_last, glob_pattern, match_rules, output_path};

#[test]
fn output_is_the_stem_with_jpg_in_the_destination() {
    assert_eq!(output_path("out", "shots/sample1.cr2"), Some("out/sample1.jpg".to_string()));
    assert_eq!(output_path("out", "sample1.cr2"), Some("out/sample1.jpg".to_string()));
    assert_eq!(
        output_path("/srv/jpg", "/srv/raw/2020/IMG_0001.CR2"),
        Some("/srv/jpg/IMG_0001.jpg".to_string())
    );
}

#[test]
fn only_the_last_extension_is_stripped() {
    assert_eq!(output_path("out", "a/b.tar.cr2"), Some("out/b.tar.jpg".to_string()));
    assert_eq!(output_path("out", "a.dir/plain"), Some("out/plain.jpg".to_string()));
    assert_eq!(output_path("out", "a/trailing."), Some("out/trailing.jpg".to_string()));
}

#[test]
fn a_leading_dot_is_part_of_the_stem() {
    assert_eq!(output_path("out", "a/.cr2"), Some("out/.cr2.jpg".to_string()));
    assert_eq!(output_path("out", ".hidden.cr2"), Some("out/.hidden.jpg".to_string()));
}

#[test]
fn a_path_without_a_file_name_has_no_output() {
    assert_eq!(output_path("out", ""), None);
    assert_eq!(output_path("out", "shots/"), None);
    assert_eq!(output_path("out", "shots/."), None);
    assert_eq!(output_path("out", ".."), None);
    assert_eq!(output_path("out", "shots/.."), None);
    assert_eq!(output_path("out", "shots/..."), Some("out/...jpg".to_string()));
}

#[test]
fn names_need_not_be_ascii() {
    assert_eq!(output_path("ausgabe", "bilder/größe.cr2"), Some("ausgabe/größe.jpg".to_string()));
    assert_eq!(output_path("出力", "写真/花.CR2"), Some("出力/花.jpg".to_string()));
}

#[test]
fn files_with_one_stem_share_an_output() {
    assert_eq!(output_path("out", "a/x.cr2"), output_path("out", "b/x.CR2"));
    assert_ne!(output_path("out", "a/x.cr2"), output_path("out", "a/y.cr2"));
}

#[test]
fn find_last_gives_the_last_position() {
    assert_eq!(find_last("a/b/c", '/'), Some(3));
    assert_eq!(find_last("abc", '/'), None);
    assert_eq!(find_last("", '.'), None);
    assert_eq!(find_last("é.ü.x", '.'), Some(3));
}

#[test]
fn pattern_for_the_directory_itself() {
    assert_eq!(glob_pattern("shots", false), "shots/*.cr2");
    assert_eq!(glob_pattern("./src/test_images", false), "./src/test_images/*.cr2");
}

#[test]
fn pattern_for_the_whole_tree() {
    assert_eq!(glob_pattern("shots", true), "shots/**/*.cr2");
}

#[test]
fn rules_ignore_case() {
    let rules = match_rules();
    assert!(!rules.case_sensitive);
    assert!(!rules.require_literal_separator);
    assert!(!rules.require_literal_leading_dot);
}
