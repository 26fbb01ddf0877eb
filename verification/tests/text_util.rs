use commit_lsp::text_util::Ellipse;

#[test]
fn smoke() {
    assert_eq!(&"Hello, World!".truncate_ellipse(3), "Hel...",);
}

#[test]
fn ellipse_with() {
    assert_eq!(&"Hello, World!".truncate_ellipse_with(3, "---"), "Hel---");
}

#[test]
fn truncate_to_empty() {
    assert_eq!(&"Hello, World!".truncate_ellipse(0), "");
}

#[test]
fn short_text_is_kept() {
    assert_eq!(&"Hello".truncate_ellipse(5), "Hello");
    assert_eq!(&"Hello".truncate_ellipse(9), "Hello");
    assert_eq!(&"".truncate_ellipse(0), "");
}

#[test]
fn truncation_counts_characters() {
    assert_eq!(&"äöüß".truncate_ellipse_with(2, "…"), "äö…");
}
