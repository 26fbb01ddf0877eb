use commit_lsp::healthcheck::HealthReport;
use commit_lsp::issue_tracker::builder::Builder;
use commit_lsp::issue_tracker::demo::DemoAdapter;
use commit_lsp::issue_tracker::gitlab::{Gitlab, GitlabIssue, IssueFilter};
use commit_lsp::issue_tracker::http::{Authorization, HttpReply};
use commit_lsp::issue_tracker::{Adapter, Answer, Ask, UpstreamError};
use commit_lsp::remote::RemoteDescriptor;
use secure_string::SecureString;

fn demo() -> Adapter {
    Adapter::Demo(DemoAdapter::new("/tmp/tickets".to_string()))
}

fn gitlab_adapter() -> Adapter {
    Adapter::Gitlab(Gitlab::new(
        SecureString::from("tok"),
        "gitlab.com".to_string(),
        "group/project".to_string(),
    ))
}

fn github_adapter() -> Adapter {
    let url = RemoteDescriptor::parse("https://github.com/texel/commit-lsp").unwrap();
    let tracker = Builder::new(url, None).build(&mut HealthReport::silent(), None).unwrap();
    match tracker.adapter() {
        Adapter::Github(_) => {}
        _ => panic!("expected the GitHub adapter"),
    }
    let url = RemoteDescriptor::parse("https://github.com/texel/commit-lsp").unwrap();
    Adapter::Github(
        commit_lsp::issue_tracker::github::Github::new(
            commit_lsp::issue_tracker::builder::TrackerConfig { url, secret: None },
        )
        .unwrap(),
    )
}

fn answer(body: &str) -> HttpReply {
    HttpReply::Response { status: 200, body: body.as_bytes().to_vec() }
}

#[test]
fn demo_adapter_asks_for_files() {
    let adapter = demo();
    assert!(adapter.credential().is_none());
    assert!(adapter.username_request().is_none());
    match adapter.list_request() {
        Some(Ask::Directory(folder)) => assert_eq!(folder, "/tmp/tickets"),
        other => panic!("unexpected {other:?}"),
    }
    match adapter.details_request(&[42, 7]) {
        Ask::Files { folder, names } => {
            assert_eq!(folder, "/tmp/tickets");
            assert_eq!(names, vec!["42", "7"]);
        }
        other => panic!("unexpected {other:?}"),
    }
    let names = Answer::Names(vec!["42".to_string(), "notes.txt".to_string()]);
    assert_eq!(adapter.list_ticket_numbers(&names).unwrap(), vec![42]);
    let contents = Answer::Contents(vec![Some("Fix bug\n\nDetails here".to_string())]);
    let tickets = adapter.get_ticket_details(&[42], &contents).unwrap();
    assert_eq!(tickets.len(), 1);
    assert_eq!(
        (tickets[0].id(), tickets[0].title(), tickets[0].text()),
        (42, "Fix bug", "Details here")
    );
}

#[test]
fn github_adapter_asks_once_for_each_issue() {
    let adapter = github_adapter();
    assert!(adapter.username_request().is_none());
    match adapter.list_request() {
        Some(Ask::Http(request)) => {
            assert_eq!(
                request.url,
                "https://api.github.com/repos/texel/commit-lsp/issues?assignee=texel"
            );
            assert_eq!(request.authorization, Authorization::Anonymous);
        }
        other => panic!("unexpected {other:?}"),
    }
    match adapter.details_request(&[1, 2]) {
        Ask::HttpEach(requests) => {
            assert_eq!(
                requests.iter().map(|r| r.url.as_str()).collect::<Vec<_>>(),
                vec![
                    "https://api.github.com/repos/texel/commit-lsp/issues/1",
                    "https://api.github.com/repos/texel/commit-lsp/issues/2",
                ]
            );
        }
        other => panic!("unexpected {other:?}"),
    }
    let listing = Answer::Http(answer(r#"[{"number":3,"title":"t"}]"#));
    assert_eq!(adapter.list_ticket_numbers(&listing).unwrap(), vec![3]);
    let details = Answer::HttpEach(vec![answer(r#"{"number":3,"title":"t","body":"b"}"#)]);
    let tickets = adapter.get_ticket_details(&[3], &details).unwrap();
    assert_eq!((tickets[0].id(), tickets[0].title(), tickets[0].text()), (3, "t", "b"));
}

#[test]
fn github_adapter_with_a_credential_asks_for_the_user_first() {
    let url = RemoteDescriptor::parse("https://github.com/texel/commit-lsp").unwrap();
    let adapter = Adapter::Github(
        commit_lsp::issue_tracker::github::Github::new(
            commit_lsp::issue_tracker::builder::TrackerConfig {
                url,
                secret: Some(SecureString::from("tok")),
            },
        )
        .unwrap(),
    );
    assert_eq!(adapter.credential().map(|s| s.unsecure().to_string()).as_deref(), Some("tok"));
    let request = adapter.username_request().expect("a request for the user");
    assert_eq!(request.url, "https://api.github.com/user");
    assert!(adapter.list_request().is_none());
    let mut tracker = commit_lsp::issue_tracker::IssueTracker::new(adapter);
    assert_eq!(tracker.remember_username("octocat".to_string()).as_deref(), Some("octocat"));
    assert!(tracker.adapter().username_request().is_none());
    match tracker.adapter().list_request() {
        Some(Ask::Http(request)) => {
            assert_eq!(
                request.url,
                "https://api.github.com/repos/texel/commit-lsp/issues?assignee=octocat"
            );
            assert_eq!(request.authorization, Authorization::Bearer);
        }
        other => panic!("unexpected {other:?}"),
    }
}

#[test]
fn gitlab_adapter_asks_questions() {
    let adapter = gitlab_adapter();
    assert_eq!(adapter.credential().map(|s| s.unsecure().to_string()).as_deref(), Some("tok"));
    match adapter.list_request() {
        Some(Ask::Gitlab(query)) => {
            assert_eq!(query.project, "group/project");
            assert!(matches!(query.filter, IssueFilter::Opened));
        }
        other => panic!("unexpected {other:?}"),
    }
    match adapter.details_request(&[5]) {
        Ask::Gitlab(query) => {
            assert!(matches!(query.filter, IssueFilter::Numbers(ids) if ids == vec![5]))
        }
        other => panic!("unexpected {other:?}"),
    }
    let reply = Answer::Gitlab(Ok(vec![GitlabIssue {
        iid: 5,
        title: "Five".to_string(),
        description: "d".to_string(),
    }]));
    assert_eq!(adapter.list_ticket_numbers(&reply).unwrap(), vec![5]);
    assert_eq!(adapter.get_ticket_details(&[5], &reply).unwrap()[0].title(), "Five");
}

#[test]
fn answer_of_another_kind_is_an_error() {
    let names = Answer::Names(Vec::new());
    for adapter in [gitlab_adapter(), github_adapter()] {
        assert!(matches!(
            adapter.list_ticket_numbers(&names),
            Err(UpstreamError::Other(text)) if text == "The tracker answered another question"
        ));
        assert!(matches!(
            adapter.get_ticket_details(&[1], &names),
            Err(UpstreamError::Other(text)) if text == "The tracker answered another question"
        ));
    }
    assert!(matches!(
        demo().list_ticket_numbers(&Answer::Http(answer("[]"))),
        Err(UpstreamError::Other(_))
    ));
    assert!(matches!(
        demo().get_ticket_details(&[1], &Answer::Names(Vec::new())),
        Err(UpstreamError::Other(_))
    ));
}
