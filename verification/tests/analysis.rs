use commit_lsp::analysis::parse_header;

#[test]
fn test_parse_header_with_scope() {
    let example = "feat(lsp): implement the thing";

    let (ty, scope, breaking) = parse_header(example).unwrap();

    assert_eq!(ty, "feat");
    assert_eq!(scope, Some("lsp"));
    assert!(!breaking);
}

#[test]
fn test_parse_header_without_scope() {
    let example = "feat: implement the thing";

    let (ty, scope, breaking) = parse_header(example).unwrap();

    assert_eq!(ty, "feat");
    assert_eq!(scope, None);
    assert!(!breaking);
}

#[test]
fn test_parse_header_with_scope_and_breaking_change() {
    let example = "feat(lsp)!: implement the thing";

    let (ty, scope, breaking) = parse_header(example).unwrap();

    assert_eq!(ty, "feat");
    assert_eq!(scope, Some("lsp"));
    assert!(breaking);
}

#[test]
fn header_needs_colon_and_space() {
    assert_eq!(parse_header("feat:implement"), None);
    assert_eq!(parse_header("feat(): x"), None);
    assert_eq!(parse_header("feat(lsp x"), None);
    assert_eq!(parse_header(""), None);
    assert_eq!(parse_header(": x"), None);
}

#[test]
fn header_is_the_leftmost_one() {
    assert_eq!(parse_header("Fix: a thing"), Some(("ix", None, false)));
    assert_eq!(parse_header("12 fix!: a: b"), Some(("fix", None, true)));
    assert_eq!(parse_header("a b(c d): e"), Some(("b", Some("c d"), false)));
    assert_eq!(parse_header("feat(lsp: x"), Some(("lsp", None, false)));
}

#[test]
fn header_subject_holds_no_line_feed() {
    assert_eq!(parse_header("feat: a\nb"), None);
    assert_eq!(parse_header("feat: a\nfix: b"), Some(("fix", None, false)));
}
