use cmd3::text::{chars_of, contains_white_space, ends_with_white_space, starts_with};

#[test]
fn chars_of_keeps_every_character() {
    assert_eq!(chars_of("a|é"), vec!['a', '|', 'é']);
    assert_eq!(chars_of(""), Vec::<char>::new());
}

#[test]
fn starts_with_compares_character_by_character() {
    assert!(starts_with(&chars_of("dirx"), &chars_of("di")));
    assert!(starts_with(&chars_of("dir"), &chars_of("")));
    assert!(starts_with(&chars_of("dir"), &chars_of("dir")));
    assert!(!starts_with(&chars_of("di"), &chars_of("dir")));
    assert!(!starts_with(&chars_of("dor"), &chars_of("di")));
}

#[test]
fn white_space_is_found_anywhere_and_at_the_end() {
    assert!(contains_white_space(&chars_of("a b")));
    assert!(contains_white_space(&chars_of("a\u{3000}b")));
    assert!(!contains_white_space(&chars_of("ab")));
    assert!(ends_with_white_space(&chars_of("ab\t")));
    assert!(!ends_with_white_space(&chars_of(" ab")));
    assert!(!ends_with_white_space(&chars_of("")));
}
