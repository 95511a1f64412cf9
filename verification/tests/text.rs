use vigilant_vole::text::{decimal, split_char, str_eq, str_le, trim};

#[test]
fn splitting_keeps_empty_pieces() {
    assert_eq!(split_char("a,b,,c", ','), vec!["a", "b", "", "c"]);
    assert_eq!(split_char("", ','), vec![""]);
    assert_eq!(split_char(",", ','), vec!["", ""]);
    assert_eq!(split_char("né,ü", ','), "né,ü".split(',').collect::<Vec<_>>());
}

#[test]
fn trimming_follows_unicode_white_space() {
    assert_eq!(trim("  bob \t\n"), "bob");
    assert_eq!(trim("\u{3000}x y\u{a0}"), "x y");
    assert_eq!(trim("   "), "");
    assert_eq!(trim(""), "");
    let s = "\u{2003} mixed\u{85}";
    assert_eq!(trim(s), s.trim());
}

#[test]
fn decimal_matches_to_string() {
    for n in [0i64, 5, 10, 99, 100, -1, -10, 123_456_789, i64::MAX, i64::MIN] {
        assert_eq!(decimal(n), n.to_string());
    }
}

#[test]
fn string_comparisons() {
    assert!(str_eq("abc", "abc"));
    assert!(!str_eq("abc", "abd"));
    assert!(!str_eq("ab", "abc"));
    assert!(str_le("ab", "abc"));
    assert!(str_le("abc", "abc"));
    assert!(!str_le("b", "abc"));
    assert!(str_le("Z", "a"));
    assert!(str_le("z", "é"));
}

#[test]
fn white_space_is_what_char_is_whitespace_accepts() {
    for u in 0u32..=0x10FFFF {
        if let Some(c) = char::from_u32(u) {
            assert_eq!(vigilant_vole::text::char_is_whitespace(c), c.is_whitespace(), "U+{u:04X}");
        }
    }
}
