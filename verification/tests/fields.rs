use device_twin::fields::{is_separator, split_fields};

#[test]
fn separators_are_the_ascii_white_space() {
    for c in [' ', '\t', '\n', '\r', '\x0b', '\x0c'] {
        assert!(is_separator(c));
    }
    for c in ['a', '0', '-', '.', '\u{a0}', '_'] {
        assert!(!is_separator(c));
    }
}

#[test]
fn empty_text_has_no_fields() {
    assert_eq!(split_fields(""), Vec::<String>::new());
    assert_eq!(split_fields("   \t\n"), Vec::<String>::new());
}

#[test]
fn fields_are_the_runs_between_separators() {
    assert_eq!(split_fields("a"), vec!["a".to_string()]);
    assert_eq!(split_fields("ab cd"), vec!["ab".to_string(), "cd".to_string()]);
    assert_eq!(
        split_fields("  ab \t cd\r\nef  "),
        vec!["ab".to_string(), "cd".to_string(), "ef".to_string()]
    );
}

#[test]
fn fields_keep_characters_beyond_ascii() {
    assert_eq!(split_fields("grün 1.0"), vec!["grün".to_string(), "1.0".to_string()]);
}
