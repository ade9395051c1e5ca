use quickserve::text::{decimal_text, from_chars, has_suffix, matches_at, same_text, to_chars};

#[test]
fn characters_round_trip() {
    for text in ["", "a", "hello", "grüße", "日本語"] {
        assert_eq!(from_chars(&to_chars(text)), text);
        assert_eq!(to_chars(text), text.chars().collect::<Vec<char>>());
    }
}

#[test]
fn decimal_text_of_small_and_large_numbers() {
    assert_eq!(decimal_text(0), "0");
    assert_eq!(decimal_text(7), "7");
    assert_eq!(decimal_text(10), "10");
    assert_eq!(decimal_text(404), "404");
    assert_eq!(decimal_text(8080), "8080");
    assert_eq!(decimal_text(65535), "65535");
}

#[test]
fn decimal_text_agrees_with_the_standard_library() {
    for n in (0..=u16::MAX).step_by(97) {
        assert_eq!(decimal_text(n), n.to_string());
    }
}

#[test]
fn same_text_compares_characters() {
    assert!(same_text("external", "external"));
    assert!(same_text("", ""));
    assert!(!same_text("external", "External"));
    assert!(!same_text("external", "externa"));
    assert!(!same_text("a", "ab"));
}

#[test]
fn pattern_is_found_only_where_it_stands() {
    let text = to_chars("abcabc");
    let pattern = to_chars("bc");
    assert!(matches_at(&text, &pattern, 1));
    assert!(matches_at(&text, &pattern, 4));
    assert!(!matches_at(&text, &pattern, 0));
    assert!(!matches_at(&text, &pattern, 5));
    assert!(!matches_at(&text, &pattern, 7));
    assert!(matches_at(&text, &to_chars(""), 6));
}

#[test]
fn suffix_is_recognised() {
    assert!(has_suffix(&to_chars("run.sh"), &to_chars(".sh")));
    assert!(has_suffix(&to_chars(".sh"), &to_chars(".sh")));
    assert!(!has_suffix(&to_chars("sh"), &to_chars(".sh")));
    assert!(!has_suffix(&to_chars("run.sh.bak"), &to_chars(".sh")));
    assert!(has_suffix(&to_chars("anything"), &to_chars("")));
}
