use commit_lsp::analysis::{Position, Range, State};
use commit_lsp::config::{CommitElementDefinition, Repository};
use commit_lsp::issue_tracker::Ticket;
use commit_lsp::lsp::{completion, completion_entry, hover, ticket_hover, Hovered};

fn state(text: &str) -> State {
    let mut state = State::new(Repository {
        types: vec![CommitElementDefinition {
            name: "feat".to_string(),
            summary: "A feature".to_string(),
            description: "Something new".to_string(),
        }],
        scopes: vec![CommitElementDefinition {
            name: "lsp".to_string(),
            summary: "The server".to_string(),
            description: "What talks to the editor".to_string(),
        }],
        issue_tracker_type: None,
        issue_tracker_url: None,
    });
    state.update_text(text);
    state
}

#[test]
fn hover_over_type_and_scope_shows_their_definition() {
    let state = state("feat(lsp): thing #12");
    match hover(&state, Position::new(0, 1)) {
        Hovered::Text { text, range } => {
            assert_eq!(text, "# A feature\n\nSomething new");
            assert_eq!(range, Range::new(Position::new(0, 0), Position::new(0, 4)));
        }
        other => panic!("unexpected {other:?}"),
    }
    match hover(&state, Position::new(0, 6)) {
        Hovered::Text { text, range } => {
            assert_eq!(text, "# The server\n\nWhat talks to the editor");
            assert_eq!(range, Range::new(Position::new(0, 5), Position::new(0, 8)));
        }
        other => panic!("unexpected {other:?}"),
    }
}

#[test]
fn hover_over_a_reference_asks_for_the_ticket() {
    let state = state("feat(lsp): thing #12");
    match hover(&state, Position::new(0, 18)) {
        Hovered::Reference { id, text, range } => {
            assert_eq!(id, 12);
            assert_eq!(text, "#12");
            assert_eq!(range, Range::new(Position::new(0, 17), Position::new(0, 20)));
        }
        other => panic!("unexpected {other:?}"),
    }
}

#[test]
fn hover_over_anything_else_shows_nothing() {
    let state = state("chore(ci): thing");
    assert!(matches!(hover(&state, Position::new(0, 1)), Hovered::Nothing));
    assert!(matches!(hover(&state, Position::new(0, 7)), Hovered::Nothing));
    assert!(matches!(hover(&state, Position::new(0, 12)), Hovered::Nothing));
    assert!(matches!(hover(&state, Position::new(3, 0)), Hovered::Nothing));
}

#[test]
fn ticket_hover_shows_title_and_text() {
    let ticket = Ticket::new(12, "Fix bug".to_string(), "Details here".to_string());
    assert_eq!(ticket_hover(12, Some(&ticket)), "# Fix bug\n\nDetails here");
    assert_eq!(ticket_hover(12, None), "#12 not found!");
}

#[test]
fn completion_lists_the_tickets() {
    let tickets = vec![
        Ticket::new(7, "Short".to_string(), "text".to_string()),
        Ticket::new(
            8,
            "A title that is longer than twenty characters".to_string(),
            String::new(),
        ),
    ];
    let entries = completion(&tickets).expect("entries");
    assert_eq!(entries.len(), 2);
    assert_eq!(entries[0].label, "#7");
    assert_eq!(entries[0].detail, "Short");
    assert_eq!(entries[0].description, "Short");
    assert_eq!(entries[0].documentation, "text");
    assert_eq!(entries[1].label, "#8");
    assert_eq!(entries[1].detail, "A title that is longer than twenty characters");
    assert_eq!(entries[1].description, "A title that is long…");
    assert_eq!(completion_entry(&tickets[1]).description, "A title that is long…");
    assert!(completion(&Vec::new()).is_none());
}
