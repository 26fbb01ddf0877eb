use commit_lsp::text::{contains, lines, trim};

#[test]
fn trim_drops_surrounding_white_space() {
    assert_eq!(trim("  secret\n"), "secret");
    assert_eq!(trim("\t a b \r\n"), "a b");
    assert_eq!(trim(""), "");
}

#[test]
fn lines_end_at_line_feeds() {
    assert_eq!(lines("a\nb\r\n\nc"), vec!["a", "b", "", "c"]);
    assert_eq!(lines("a\n"), vec!["a"]);
    assert_eq!(lines("a\r"), vec!["a\r"]);
    assert!(lines("").is_empty());
}

#[test]
fn contains_finds_substrings() {
    assert!(contains("gitlab.example.com", "gitlab"));
    assert!(contains("abc", ""));
    assert!(!contains("bitbucket.org", "gitlab"));
}

#[test]
fn white_space_is_what_unicode_says() {
    for c in ['\t', '\n', '\u{0B}', '\u{0C}', '\r', ' ', '\u{85}', '\u{A0}', '\u{1680}', '\u{2000}',
        '\u{200A}', '\u{2028}', '\u{2029}', '\u{202F}', '\u{205F}', '\u{3000}']
    {
        assert!(commit_lsp::text::is_whitespace(c), "{:?}", c);
        assert!(c.is_whitespace());
    }
    for c in ['a', '0', '\u{8}', '\u{E}', '\u{200B}', '\u{FEFF}', '\u{180E}', '_'] {
        assert!(!commit_lsp::text::is_whitespace(c), "{:?}", c);
        assert!(!c.is_whitespace());
    }
    assert_eq!(trim("\u{3000}a\u{2003}b\u{A0}\n"), "a\u{2003}b");
    assert_eq!(commit_lsp::text::trim_end(" a b \t"), " a b");
}

#[test]
fn numbers_are_written_and_read_in_decimal() {
    assert_eq!(commit_lsp::text::u64_to_string(0), "0");
    assert_eq!(commit_lsp::text::u64_to_string(10), "10");
    assert_eq!(commit_lsp::text::u64_to_string(9_007_199_254_740_993), "9007199254740993");
    assert_eq!(commit_lsp::text::u64_to_string(u64::MAX), "18446744073709551615");
    let read = |s: &str| commit_lsp::text::parse_u64(&s.chars().collect());
    assert_eq!(read("0"), Some(0));
    assert_eq!(read("+17"), Some(17));
    assert_eq!(read("0042"), Some(42));
    assert_eq!(read("18446744073709551615"), Some(u64::MAX));
    assert_eq!(read("18446744073709551616"), None);
    assert_eq!(read("99999999999999999999999"), None);
    assert_eq!(read(""), None);
    assert_eq!(read("+"), None);
    assert_eq!(read("-1"), None);
    assert_eq!(read("1 "), None);
    assert_eq!(read("١٢"), None);
    for s in ["0", "+17", "0042", "18446744073709551616", "", "+", "-1", "++1", "1_000"] {
        assert_eq!(read(s), s.parse::<u64>().ok(), "{s}");
    }
}

#[test]
fn lines_agree_with_the_standard_library() {
    for text in ["", "\n", "a", "a\n", "a\r\n", "a\r", "\r\n\r\n", "a\n\nb", "a\r\r\nb", "\ra\n", "a\nb\r"] {
        let expected: Vec<String> = text.lines().map(|l| l.to_string()).collect();
        assert_eq!(lines(text), expected, "{text:?}");
    }
}

#[test]
fn prefixes_and_equality() {
    assert!(commit_lsp::text::starts_with("worktree /repo", "worktree "));
    assert!(!commit_lsp::text::starts_with("worktre", "worktree "));
    assert!(commit_lsp::text::starts_with("abc", ""));
    assert!(commit_lsp::text::same_text("äb", "äb"));
    assert!(!commit_lsp::text::same_text("ab", "abc"));
    assert!(!commit_lsp::text::same_text("abd", "abc"));
    assert!(!contains("ab", "abc"));
    assert!(contains("xxabc", "abc"));
    assert!(contains("abcabd", "abd"));
}

#[test]
fn joining_puts_the_separator_between_the_parts() {
    let parts = vec!["a".to_string(), String::new(), "c".to_string()];
    assert_eq!(commit_lsp::text::join_from(&parts, 0, ", "), "a, , c");
    assert_eq!(commit_lsp::text::join_from(&parts, 2, ", "), "c");
    assert_eq!(commit_lsp::text::join_from(&parts, 3, ", "), "");
    assert_eq!(commit_lsp::text::join_range(&parts, 0, 2, "\n"), "a\n");
    assert_eq!(commit_lsp::text::concat("ab", "cd"), "abcd");
}

#[test]
fn bytes_are_read_as_utf8() {
    assert_eq!(commit_lsp::text::text_of_bytes(&"häh".as_bytes().to_vec()).as_deref(), Some("häh"));
    assert_eq!(commit_lsp::text::text_of_bytes(&vec![0xe2, 0x82]), None);
    assert_eq!(commit_lsp::text::text_of_bytes(&Vec::new()).as_deref(), Some(""));
}
