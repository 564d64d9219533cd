use mixel::text::{
    char_is_control, char_is_whitespace, char_to_ascii_lower, chars_of, same_chars, string_of,
};

fn all_chars() -> impl Iterator<Item = char> {
    (0u32..=0x10ffff).filter_map(char::from_u32)
}

#[test]
fn blanks_are_the_white_space_characters() {
    for c in all_chars() {
        assert_eq!(char_is_whitespace(c), c.is_whitespace(), "U+{:04X}", c as u32);
    }
}

#[test]
fn control_characters_are_the_control_codes() {
    for c in all_chars() {
        assert_eq!(char_is_control(c), c.is_control(), "U+{:04X}", c as u32);
    }
}

#[test]
fn lower_case_of_ascii_only() {
    for c in all_chars() {
        assert_eq!(char_to_ascii_lower(c), c.to_ascii_lowercase(), "U+{:04X}", c as u32);
    }
    assert_eq!(char_to_ascii_lower('A'), 'a');
    assert_eq!(char_to_ascii_lower('Z'), 'z');
    assert_eq!(char_to_ascii_lower('@'), '@');
    assert_eq!(char_to_ascii_lower('['), '[');
    assert_eq!(char_to_ascii_lower('\u{c9}'), '\u{c9}');
}

#[test]
fn strings_and_their_characters() {
    assert_eq!(chars_of("a\u{e9}\u{1f600}z"), vec!['a', '\u{e9}', '\u{1f600}', 'z']);
    assert_eq!(chars_of(""), Vec::<char>::new());
    assert_eq!(string_of(&vec![':', 'w', ' ', '\u{e9}']), ":w \u{e9}");
    assert_eq!(string_of(&Vec::new()), "");
    assert_eq!(string_of(&chars_of("round trip")), "round trip");
}

#[test]
fn same_characters() {
    assert!(same_chars(&vec!['u', 'p'], &vec!['u', 'p']));
    assert!(same_chars(&Vec::new(), &Vec::new()));
    assert!(!same_chars(&vec!['u', 'p'], &vec!['u']));
    assert!(!same_chars(&vec!['u'], &vec!['u', 'p']));
    assert!(!same_chars(&vec!['u', 'p'], &vec!['u', 'q']));
}
