use storage_gateway::names::{name_byte, valid_filename};

#[test]
fn valid_filename_accepts_letters_digits_dots_and_hyphens() {
    assert!(valid_filename("photo-1.jpg"));
    assert!(valid_filename("report.pdf"));
    assert!(valid_filename("ABCxyz019"));
    assert!(valid_filename("a"));
    assert!(valid_filename("-"));
    assert!(valid_filename("."));
    assert!(valid_filename(".."));
    assert!(valid_filename(".hidden"));
}

#[test]
fn valid_filename_accepts_the_empty_name() {
    assert!(valid_filename(""));
}

#[test]
fn valid_filename_rejects_path_separators() {
    assert!(!valid_filename("../etc/passwd"));
    assert!(!valid_filename("a/b"));
    assert!(!valid_filename("/"));
    assert!(!valid_filename("a\\b"));
    assert!(!valid_filename("name/"));
}

#[test]
fn valid_filename_rejects_other_characters() {
    assert!(!valid_filename("a b"));
    assert!(!valid_filename("a_b"));
    assert!(!valid_filename("a\n"));
    assert!(!valid_filename("a\0"));
    assert!(!valid_filename("file?.txt"));
    assert!(!valid_filename("~"));
    assert!(!valid_filename("a:b"));
}

#[test]
fn valid_filename_rejects_characters_outside_ascii() {
    assert!(!valid_filename("caf\u{e9}"));
    assert!(!valid_filename("\u{ff21}"));
    assert!(!valid_filename("\u{661}"));
    assert!(!valid_filename("abc\u{1f600}"));
}

#[test]
fn valid_filename_agrees_with_a_check_of_every_character() {
    let samples = ["", "a", "a.b-c", "a/b", "..", "x y", "Z9", "\u{e9}", "a.b/c-d", "{}", "@home"];
    for s in samples {
        let expected = s.chars().all(|c| c.is_ascii_alphanumeric() || c == '.' || c == '-');
        assert_eq!(valid_filename(s), expected);
    }
}

#[test]
fn name_byte_knows_the_edges_of_each_range() {
    for c in [b'a', b'z', b'A', b'Z', b'0', b'9', b'.', b'-'] {
        assert!(name_byte(c));
    }
    for c in [b'`', b'{', b'@', b'[', b'/', b':', b',', b'+', b'_', b' ', 0, 127] {
        assert!(!name_byte(c));
    }
}

#[test]
fn name_byte_agrees_with_the_character_classes_on_all_of_ascii() {
    for b in 0u8..128 {
        let c = b as char;
        assert_eq!(name_byte(b), c.is_ascii_alphanumeric() || c == '.' || c == '-');
    }
}
