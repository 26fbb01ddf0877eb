use commit_lsp::issue_tracker::demo::DemoAdapter;

fn adapter() -> DemoAdapter {
    DemoAdapter::new("/tmp/tickets".to_string())
}

#[test]
fn fixture_file_round_trip() {
    let contents = vec![Some("Fix bug\n\nDetails here".to_string())];
    let tickets = adapter().get_ticket_details(&[42], &contents).unwrap();
    assert_eq!(tickets.len(), 1);
    assert_eq!(tickets[0].id(), 42);
    assert_eq!(tickets[0].title(), "Fix bug");
    assert_eq!(tickets[0].text(), "Details here");
    assert_eq!(DemoAdapter::file_name(42), "42");
    assert_eq!(adapter().source_folder(), "/tmp/tickets");
}

#[test]
fn body_runs_from_the_third_line() {
    let ticket = adapter().load_ticket(1, "Title\nskipped\nfirst\n\nlast\n").unwrap();
    assert_eq!(ticket.title(), "Title");
    assert_eq!(ticket.text(), "first\n\nlast");
    let ticket = adapter().load_ticket(2, "Only a title").unwrap();
    assert_eq!((ticket.id(), ticket.title(), ticket.text()), (2, "Only a title", ""));
    let ticket = adapter().load_ticket(3, "Title\r\n\r\nBody\r\n").unwrap();
    assert_eq!((ticket.title(), ticket.text()), ("Title", "Body"));
    let ticket = adapter().load_ticket(4, "\n").unwrap();
    assert_eq!((ticket.title(), ticket.text()), ("", ""));
}

#[test]
fn empty_file_holds_no_ticket() {
    assert!(adapter().load_ticket(1, "").is_none());
}

#[test]
fn missing_and_empty_files_are_passed_over() {
    let contents = vec![
        Some("One\n\nfirst".to_string()),
        None,
        Some(String::new()),
        Some("Four".to_string()),
    ];
    let tickets = adapter().get_ticket_details(&[1, 2, 3, 4], &contents).unwrap();
    assert_eq!(tickets.len(), 2);
    assert_eq!((tickets[0].id(), tickets[0].title(), tickets[0].text()), (1, "One", "first"));
    assert_eq!((tickets[1].id(), tickets[1].title(), tickets[1].text()), (4, "Four", ""));
}

#[test]
fn file_names_that_write_numbers_are_listed() {
    let names: Vec<String> =
        ["42", "README.md", "7", "+3", "-1", "", "007", "1e3", " 5", "18446744073709551615", "18446744073709551616"]
            .iter()
            .map(|n| n.to_string())
            .collect();
    assert_eq!(
        adapter().list_ticket_numbers(&names).unwrap(),
        vec![42, 7, 3, 7, u64::MAX]
    );
    assert!(adapter().list_ticket_numbers(&Vec::new()).unwrap().is_empty());
}
