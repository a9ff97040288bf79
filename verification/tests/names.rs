use backend::normalization::normalize_name;

#[test]
fn trims_leading_and_trailing_whitespace() {
    assert_eq!(normalize_name("  hi  "), "hi");
    assert_eq!(normalize_name("\t name \n"), "name");
}

#[test]
fn preserves_interior_whitespace() {
    assert_eq!(normalize_name("  a  b  "), "a  b");
}

#[test]
fn all_whitespace_becomes_empty() {
    assert_eq!(normalize_name("   \t\n  "), "");
    assert_eq!(normalize_name(""), "");
}

#[test]
fn decomposes_to_nfd() {
    // U+00E9 decomposes to the letter plus a combining acute accent.
    assert_eq!(normalize_name("\u{00e9}"), "e\u{0301}");
    // Already-decomposed input is unchanged.
    assert_eq!(normalize_name("e\u{0301}"), "e\u{0301}");
}

#[test]
fn normalization_is_idempotent() {
    for s in ["  H\u{00e9}llo  w\u{00f6}rld ", "plain", " \u{00c5}ngstr\u{00f6}m", ""] {
        let once = normalize_name(s);
        let twice = normalize_name(&once);
        assert_eq!(twice, once);
    }
}

#[test]
fn doc_example_matches() {
    assert_eq!(normalize_name(" hi\u{0308} "), "hi\u{0308}");
    assert_eq!(normalize_name(" h\u{00ef} "), "hi\u{0308}");
}
