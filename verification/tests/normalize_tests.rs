use codlet::code::normalize;

#[test]
fn strips_separators_and_uppercases() {
    assert_eq!(normalize("x7-y9 z2"), "X7Y9Z2");
    assert_eq!(normalize("X7Y9Z2"), "X7Y9Z2");
    assert_eq!(normalize("  a b - c "), "ABC");
}

#[test]
fn does_not_drop_ambiguous_characters() {
    assert_eq!(normalize("o1il0"), "O1IL0");
}

#[test]
fn idempotent() {
    for s in ["X7-Y9 Z2", "abc", "  ", "Ünïcödé", "a-b-c-1-2-3", ""] {
        assert_eq!(normalize(&normalize(s)), normalize(s), "not idempotent for {s:?}");
    }
}

#[test]
fn empty_and_separator_only_become_empty() {
    assert_eq!(normalize(""), "");
    assert_eq!(normalize("  --  "), "");
}

#[test]
fn no_panic_on_arbitrary_unicode() {
    for cp in [0u32, 0x09, 0x20, 0x2d, 0x41, 0x7f, 0x80, 0xa0, 0x1f600, 0x10ffff] {
        if let Some(ch) = char::from_u32(cp) {
            let s: String = core::iter::once(ch).collect();
            let _ = normalize(&s);
        }
    }
}

const INTERESTING_INPUTS: &[&str] = &["", "a-b-c", "  x y  ", "Ünïcödé", "abc", "X7-y9 z2", "\t\n\r", "😀-😀"];

#[test]
fn interesting_inputs_cover_required_shapes() {
    assert!(INTERESTING_INPUTS.contains(&""), "corpus missing the empty string");
    assert!(INTERESTING_INPUTS.iter().any(|s| s.contains('-')), "corpus missing a hyphen");
    assert!(
        INTERESTING_INPUTS.iter().any(|s| s.chars().any(|c| c.is_ascii_whitespace())),
        "corpus missing ASCII whitespace"
    );
    assert!(
        INTERESTING_INPUTS.iter().any(|s| s.chars().any(|c| c.is_ascii_lowercase())),
        "corpus missing a lowercase ASCII letter"
    );
    assert!(INTERESTING_INPUTS.iter().any(|s| !s.is_ascii()), "corpus missing a non-ASCII character");
}

#[test]
fn idempotent_on_the_interesting_inputs() {
    for s in INTERESTING_INPUTS {
        assert_eq!(normalize(&normalize(s)), normalize(s));
    }
}

#[test]
fn non_ascii_characters_and_spaces_are_kept() {
    assert_eq!(normalize("é-\u{00a0}ü"), "é\u{00a0}ü");
    assert_eq!(normalize("A\u{a0}B"), "A\u{a0}B");
    assert_eq!(normalize("\u{2003}q\u{3000}"), "\u{2003}Q\u{3000}");
    assert_eq!(normalize("😀-😀"), "😀😀");
    assert_eq!(normalize("\t a\n\r\u{c}b "), "AB");
}
