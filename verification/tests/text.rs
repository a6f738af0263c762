use system_language::text::{language_part, starts_with};

#[test]
fn starts_with_accepts_a_true_prefix() {
    assert!(starts_with("zh-CN", "zh"));
    assert!(starts_with("en", "en"));
    assert!(starts_with("english", "en"));
}

#[test]
fn starts_with_rejects_a_text_that_differs() {
    assert!(!starts_with("fr-FR", "en"));
    assert!(!starts_with("ez", "en"));
    assert!(!starts_with("ne", "en"));
    assert!(!starts_with(" en", "en"));
}

#[test]
fn starts_with_rejects_a_text_shorter_than_the_prefix() {
    assert!(!starts_with("z", "zh"));
    assert!(!starts_with("", "zh"));
}

#[test]
fn starts_with_takes_the_empty_prefix_everywhere() {
    assert!(starts_with("", ""));
    assert!(starts_with("zh", ""));
}

#[test]
fn starts_with_is_case_sensitive() {
    assert!(!starts_with("ZH", "zh"));
    assert!(!starts_with("Zh", "zh"));
}

#[test]
fn starts_with_compares_whole_characters() {
    assert!(starts_with("\u{e9}t\u{e9}", "\u{e9}"));
    assert!(!starts_with("\u{e8}t\u{e9}", "\u{e9}"));
    assert!(!starts_with("et", "\u{e9}"));
    assert!(starts_with("\u{4e2d}\u{6587}", "\u{4e2d}"));
}

#[test]
fn starts_with_agrees_with_std() {
    let texts = ["", "z", "zh", "zh-CN", "en", "e", "EN", "\u{ff5a}\u{ff48}", "\u{e9}n"];
    let prefixes = ["", "z", "zh", "en", "\u{e9}", "\u{ff5a}"];
    for text in texts {
        for prefix in prefixes {
            assert_eq!(starts_with(text, prefix), text.starts_with(prefix));
        }
    }
}

#[test]
fn language_part_drops_the_encoding() {
    assert_eq!(language_part("zh_CN.UTF-8"), "zh_CN");
    assert_eq!(language_part("en_US.ISO-8859-1"), "en_US");
}

#[test]
fn language_part_keeps_a_name_without_encoding() {
    assert_eq!(language_part("en_US"), "en_US");
    assert_eq!(language_part("C"), "C");
}

#[test]
fn language_part_of_the_empty_name_is_empty() {
    assert_eq!(language_part(""), "");
}

#[test]
fn language_part_cuts_at_the_first_dot_only() {
    assert_eq!(language_part("a.b.c"), "a");
    assert_eq!(language_part("de_DE.UTF-8.old"), "de_DE");
}

#[test]
fn language_part_of_a_leading_dot_is_empty() {
    assert_eq!(language_part(".UTF-8"), "");
    assert_eq!(language_part("."), "");
}

#[test]
fn language_part_of_a_trailing_dot_is_the_rest() {
    assert_eq!(language_part("fr_FR."), "fr_FR");
}

#[test]
fn language_part_keeps_characters_of_several_bytes() {
    assert_eq!(language_part("\u{4e2d}\u{6587}.UTF-8"), "\u{4e2d}\u{6587}");
    assert_eq!(language_part("\u{e9}\u{1f600}"), "\u{e9}\u{1f600}");
    assert_eq!(language_part("\u{1f600}.\u{e9}"), "\u{1f600}");
}

#[test]
fn language_part_agrees_with_split() {
    let names = ["", ".", "..", "a", "a.", ".a", "zh_CN.UTF-8", "\u{3002}.x", "x\u{ff0e}y.z"];
    for name in names {
        assert_eq!(language_part(name), name.split('.').next().unwrap_or(name));
    }
}
