use commit_lsp::analysis::{Diagnostic, ItemKind, Position, Range, State};
use commit_lsp::config::{CommitElementDefinition, Repository};

/// Parse a text example with embedded range markers.
///
/// `|>` will mark the start of the range and `<|` marks the end.
///
/// Example input string:
/// ```gitcommit
/// The range |>is this part<| of the text.
/// ```
fn text_with_range(text: &str) -> (String, Range) {
    let mut iter = text
        .lines()
        .enumerate()
        .filter(|(_, l)| l.contains("|>") || l.contains("<|"));

    let (mut idx, mut line) = iter.next().unwrap();
    let begin = {
        let char = line.find("|>").unwrap();
        Position::new(idx as u32, char as u32)
    };

    let end = {
        let single_line = line.contains("<|");
        if !single_line {
            (idx, line) = iter.next().unwrap();
        }

        let mut char = line.find("<|").unwrap();

        if single_line {
            // skip the `|>` that precedes us in single line mode
            char -= 2;
        }
        Position::new(idx as u32, char as u32)
    };

    assert_eq!(iter.next(), None);

    (
        text.replace("|>", "").replace("<|", ""),
        Range::new(begin, end),
    )
}

fn example(text: &str) -> (State, Range) {
    let (text, range) = text_with_range(text);
    let mut state = State::new(Default::default());
    state.update_text(&text);
    (state, range)
}

fn definition(name: &str, summary: &str) -> CommitElementDefinition {
    CommitElementDefinition {
        name: name.to_string(),
        summary: summary.to_string(),
        description: format!("About {name}"),
    }
}

fn configured() -> State {
    State::new(Repository {
        types: vec![definition("feat", "A feature"), definition("fix", "A fix")],
        scopes: vec![definition("lsp", "The server")],
        issue_tracker_type: None,
        issue_tracker_url: None,
    })
}

#[test]
fn test_get_text_single_line() {
    let (state, range) = example("this |>is a<| test");

    assert_eq!(state.get_text(range), "is a");
}

#[test]
fn test_get_text_full_single_line() {
    let (state, range) = example("|>this is a test<|");

    assert_eq!(state.get_text(range), "this is a test");
}

#[test]
fn test_get_text_full_empty_range() {
    let (state, range) = example("this is|><| a test");

    assert_eq!(state.get_text(range), "");
}

#[test]
fn test_get_text_multi_line() {
    let (state, range) = example("this is a |>test\nover two<| lines");

    assert_eq!(state.get_text(range), "test\nover two");
}

#[test]
fn second_line_should_be_empty() {
    let mut state = configured();
    state.update_text("feat: thing\nnot empty\nbody");
    let diagnostics = state.all_diagnostics();
    assert_eq!(diagnostics.len(), 1);
    assert_eq!(diagnostics[0].message(), "The second line should be empty!");
    assert_eq!(
        diagnostics[0].range(),
        Range::new(Position::new(1, 0), Position::new(1, 9))
    );
    assert_eq!(diagnostics[0].to_text(), "[2:1] The second line should be empty!");
    state.update_text("feat: thing\n\nbody");
    assert!(state.all_diagnostics().is_empty());
    state.update_text("feat: thing");
    assert!(state.all_diagnostics().is_empty());
    state.update_text("");
    assert!(state.all_diagnostics().is_empty());
}

#[test]
fn diagnostic_text_counts_from_one() {
    let d = Diagnostic::new(
        Range::new(Position::new(0, 4), Position::new(0, 9)),
        "message",
    );
    assert_eq!(d.to_text(), "[1:5] message");
    let d = Diagnostic::new(
        Range::new(Position::new(u32::MAX, u32::MAX), Position::new(u32::MAX, u32::MAX)),
        "far",
    );
    assert_eq!(d.to_text(), "[4294967296:4294967296] far");
}

#[test]
fn lookup_finds_type_scope_and_references() {
    let mut state = configured();
    state.update_text("feat(lsp): implement #42 and more\n\nSee #7, not # 8.");
    let ty = state.lookup(Position::new(0, 2)).expect("the type");
    assert_eq!(ty.kind, ItemKind::Ty);
    assert_eq!(ty.text, "feat");
    assert_eq!(ty.range, Range::new(Position::new(0, 0), Position::new(0, 4)));
    let scope = state.lookup(Position::new(0, 5)).expect("the scope");
    assert_eq!(scope.kind, ItemKind::Scope);
    assert_eq!(scope.text, "lsp");
    let reference = state.lookup(Position::new(0, 22)).expect("a reference");
    assert_eq!(reference.kind, ItemKind::Ref(42));
    assert_eq!(reference.text, "#42");
    assert_eq!(reference.range, Range::new(Position::new(0, 21), Position::new(0, 24)));
    let reference = state.lookup(Position::new(2, 4)).expect("a reference");
    assert_eq!(reference.kind, ItemKind::Ref(7));
    assert!(state.lookup(Position::new(0, 14)).is_none());
    assert!(state.lookup(Position::new(2, 13)).is_none());
    assert!(state.lookup(Position::new(2, 15)).is_none());
}

#[test]
fn lookup_out_of_bounds_finds_nothing() {
    let mut state = configured();
    state.update_text("feat: thing");
    assert!(state.lookup(Position::new(1, 0)).is_none());
    assert!(state.lookup(Position::new(0, 12)).is_none());
    assert!(state.lookup(Position::new(0, 4)).is_some());
    assert!(state.lookup(Position::new(0, 5)).is_none());
    let empty = configured();
    assert!(empty.lookup(Position::new(0, 0)).is_none());
}

#[test]
fn reference_whose_number_does_not_fit_is_nothing() {
    let mut state = configured();
    state.update_text("x #18446744073709551615 #18446744073709551616 a#1b#2");
    assert_eq!(state.lookup(Position::new(0, 3)).unwrap().kind, ItemKind::Ref(u64::MAX));
    assert!(state.lookup(Position::new(0, 25)).is_none());
    let mixed = state.lookup(Position::new(0, 47)).unwrap();
    assert_eq!(mixed.kind, ItemKind::Ref(1));
    assert_eq!(mixed.text, "a#1b#2");
}

#[test]
fn type_and_scope_are_looked_up_in_the_configuration() {
    let mut state = configured();
    state.update_text("fix(lsp)!: thing");
    assert_eq!(state.commit_type_info().unwrap().summary, "A fix");
    assert_eq!(state.commit_scope_info().unwrap().summary, "The server");
    state.update_text("chore(ci): thing");
    assert!(state.commit_type_info().is_none());
    assert!(state.commit_scope_info().is_none());
    state.update_text("no header here");
    assert!(state.commit_type_info().is_none());
    assert!(state.commit_scope_info().is_none());
    state.update_text("feat: thing");
    assert_eq!(state.commit_type_info().unwrap().name, "feat");
    assert!(state.commit_scope_info().is_none());
    assert_eq!(state.get_commit_types().len(), 2);
    assert_eq!(state.get_commit_scopes()[0].name, "lsp");
}
