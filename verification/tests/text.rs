use phi_bitwarden_helper::text;

#[test]
fn white_space_is_the_one_of_unicode() {
    for n in 0..=0x10ffff_u32 {
        if let Some(c) = char::from_u32(n) {
            assert_eq!(text::is_white_space(c), c.is_whitespace(), "{n:x}");
        }
    }
}

#[test]
fn trimming_is_that_of_the_standard_library() {
    for s in ["", " ", "a", " a", "a ", "\u{3000}a b\t", "\u{200b}a", "\n\r x \u{a0}\u{85}"] {
        assert_eq!(text::trim(s), s.trim(), "{s:?}");
    }
}

#[test]
fn finding_gives_the_first_occurrence() {
    assert_eq!(text::find("a://b://c", "://"), Some(1));
    assert_eq!(text::find("abc", "://"), None);
    assert_eq!(text::find("abc", ""), Some(0));
    assert!(text::contains("example.com", "ample"));
    assert!(!text::contains("example.com", "amples"));
    assert!(text::contains_char("a.b", '.'));
    assert!(!text::contains_char("ab", '.'));
    assert!(text::has_prefix("https://x", "https"));
    assert!(!text::has_prefix("http", "https"));
    assert!(text::has_suffix("www.example.com", ".example.com"));
    assert!(!text::has_suffix("com", ".example.com"));
    assert_eq!(text::trim_slashes("https://x//"), "https://x");
}

#[test]
fn ascii_case_is_ignored_and_no_other() {
    assert!(text::equal_ignoring_ascii_case("Alice@Example.COM", "alice@example.com"));
    assert!(!text::equal_ignoring_ascii_case("\u{c4}", "\u{e4}"));
    assert!(!text::equal_ignoring_ascii_case("alice", "alicex"));
    assert_eq!(text::to_ascii_lower('Z'), 'z');
    assert_eq!(text::to_ascii_lower('['), '[');
}

#[test]
fn blank_options_are_none() {
    assert_eq!(text::owned_non_empty(Some("")), None);
    assert_eq!(text::owned_non_empty(None), None);
    assert_eq!(text::owned_non_empty(Some("x")), Some("x".to_string()));
}
