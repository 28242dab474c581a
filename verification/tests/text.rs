use turn_authenticator::text::{chars_of, has_prefix, same_text, starts_with, string_of};

#[test]
fn chars_of_gives_characters_not_bytes() {
    assert_eq!(chars_of("a\u{e9}\u{1f600}"), vec!['a', '\u{e9}', '\u{1f600}']);
    assert_eq!(chars_of(""), Vec::<char>::new());
}

#[test]
fn string_of_takes_a_range() {
    let chars = chars_of("alice=secret1");
    assert_eq!(string_of(&chars, 0, 5), "alice");
    assert_eq!(string_of(&chars, 6, 13), "secret1");
    assert_eq!(string_of(&chars, 5, 5), "");
}

#[test]
fn prefixes() {
    assert!(starts_with("abc", ""));
    assert!(starts_with("abc", "ab"));
    assert!(starts_with("abc", "abc"));
    assert!(!starts_with("abc", "abcd"));
    assert!(!starts_with("abc", "b"));
    assert!(has_prefix(&vec!['x', 'y'], &vec!['x']));
    assert!(!has_prefix(&vec!['x', 'y'], &vec!['y']));
}

#[test]
fn same_text_compares_characters() {
    assert!(same_text("", ""));
    assert!(same_text("RS256", "RS256"));
    assert!(!same_text("RS256", "RS25"));
    assert!(!same_text("RS25", "RS256"));
    assert!(!same_text("RS256", "rs256"));
}
