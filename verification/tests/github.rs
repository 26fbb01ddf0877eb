use commit_lsp::issue_tracker::builder::TrackerConfig;
use commit_lsp::issue_tracker::github::Github;
use commit_lsp::issue_tracker::http::{Authorization, HttpReply, Method, Payload};
use commit_lsp::issue_tracker::UpstreamError;
use commit_lsp::remote::RemoteDescriptor;
use secure_string::SecureString;

fn remote() -> RemoteDescriptor {
    RemoteDescriptor::parse("git@github.com:texel/commit-lsp.git").unwrap()
}

fn anonymous() -> Github {
    Github::new(TrackerConfig { url: remote(), secret: None }).expect("an adapter")
}

fn with_token() -> Github {
    Github::new(TrackerConfig { url: remote(), secret: Some(SecureString::from("tok")) })
        .expect("an adapter")
}

fn answer(status: u16, body: &str) -> HttpReply {
    HttpReply::Response { status, body: body.as_bytes().to_vec() }
}

fn headers() -> Vec<(String, String)> {
    vec![
        ("User-Agent".to_string(), "commit-lsp".to_string()),
        ("Accept".to_string(), "application/vnd.github.raw+json".to_string()),
        ("X-GitHub-Api-Version".to_string(), "2022-11-28".to_string()),
    ]
}

#[test]
fn adapter_needs_an_owner() {
    let mut url = remote();
    url.owner = None;
    assert!(Github::new(TrackerConfig { url, secret: None }).is_none());
}

#[test]
fn without_a_credential_the_owner_is_the_assignee() {
    let github = anonymous();
    assert!(github.credential().is_none());
    assert_eq!(github.assignee().as_deref(), Some("texel"));
    let request = github.list_request("texel");
    assert_eq!(request.method, Method::Get);
    assert_eq!(
        request.url,
        "https://api.github.com/repos/texel/commit-lsp/issues?assignee=texel"
    );
    assert!(request.query.is_empty());
    assert_eq!(request.headers, headers());
    assert_eq!(request.authorization, Authorization::Anonymous);
    assert!(matches!(request.payload, Payload::Empty));
}

#[test]
fn with_a_credential_the_user_is_asked_for_once() {
    let mut github = with_token();
    assert_eq!(github.credential().map(|s| s.unsecure().to_string()).as_deref(), Some("tok"));
    assert_eq!(github.assignee(), None);
    let request = github.username_request();
    assert_eq!(request.method, Method::Get);
    assert_eq!(request.url, "https://api.github.com/user");
    assert_eq!(request.headers, headers());
    assert_eq!(request.authorization, Authorization::Bearer);
    let name = github.read_username(&answer(200, r#"{"login":"octocat","id":1}"#)).unwrap();
    assert_eq!(name, "octocat");
    assert_eq!(github.get_username(name), "octocat");
    assert_eq!(github.assignee().as_deref(), Some("octocat"));
    // A second writer reuses what the first one remembered.
    assert_eq!(github.get_username("impostor".to_string()), "octocat");
    assert_eq!(github.assignee().as_deref(), Some("octocat"));
    assert_eq!(github.list_request("octocat").authorization, Authorization::Bearer);
}

#[test]
fn user_reply_without_login_is_an_error() {
    let github = with_token();
    assert!(matches!(
        github.read_username(&answer(200, r#"{"name":"x"}"#)),
        Err(UpstreamError::Other(text)) if text == "User is missing a login"
    ));
    assert!(matches!(
        github.read_username(&answer(401, r#"{"message":"Bad credentials"}"#)),
        Err(UpstreamError::Authentication)
    ));
}

#[test]
fn github_listed_numbers_are_read() {
    let reply = answer(
        200,
        r#"[{"number":5,"title":"a","body":"x"},{"number":9,"title":"b","body":null},{"number":2,"title":"c"}]"#,
    );
    assert_eq!(anonymous().list_ticket_numbers(&reply).unwrap(), vec![5, 9, 2]);
    assert!(anonymous().list_ticket_numbers(&answer(200, "[]")).unwrap().is_empty());
}

#[test]
fn github_list_errors() {
    assert!(matches!(
        anonymous().list_ticket_numbers(&answer(404, "Not Found")),
        Err(UpstreamError::Other(text)) if text == "Not Found"
    ));
    assert!(matches!(
        anonymous().list_ticket_numbers(&answer(401, "whatever")),
        Err(UpstreamError::Authentication)
    ));
    assert!(matches!(
        anonymous().list_ticket_numbers(&HttpReply::Failed("dns".to_string())),
        Err(UpstreamError::Io(text)) if text == "dns"
    ));
    assert!(matches!(
        anonymous().list_ticket_numbers(&answer(200, r#"{"number":1}"#)),
        Err(UpstreamError::Other(text)) if text == "Unexpected response format"
    ));
    assert!(matches!(
        anonymous().list_ticket_numbers(&answer(200, r#"[{"number":1}]"#)),
        Err(UpstreamError::Other(text)) if text == "Issue is missing a title"
    ));
    assert!(matches!(
        anonymous().list_ticket_numbers(&answer(200, r#"[{"title":"t","number":"1"}]"#)),
        Err(UpstreamError::Other(text)) if text == "Unexpected response format"
    ));
    assert!(matches!(
        anonymous().list_ticket_numbers(&answer(200, r#"[{"title":"t","number":1,"body":3}]"#)),
        Err(UpstreamError::Other(text)) if text == "Unexpected response format"
    ));
}

#[test]
fn one_request_for_each_issue() {
    let request = with_token().details_request(42);
    assert_eq!(request.method, Method::Get);
    assert_eq!(request.url, "https://api.github.com/repos/texel/commit-lsp/issues/42");
    assert_eq!(request.headers, headers());
    assert_eq!(request.authorization, Authorization::Bearer);
    assert_eq!(
        anonymous().details_request(u64::MAX).url,
        "https://api.github.com/repos/texel/commit-lsp/issues/18446744073709551615"
    );
    assert_eq!(
        anonymous().details_request(0).url,
        "https://api.github.com/repos/texel/commit-lsp/issues/0"
    );
}

#[test]
fn details_take_the_requested_number() {
    let github = anonymous();
    let replies = vec![
        answer(200, r#"{"number":1,"title":"First","body":"text"}"#),
        answer(200, r#"{"number":2,"title":"Second","body":null}"#),
    ];
    let tickets = github.get_ticket_details(&[10, 20], &replies).unwrap();
    assert_eq!(tickets.len(), 2);
    assert_eq!((tickets[0].id(), tickets[0].title(), tickets[0].text()), (10, "First", "text"));
    assert_eq!((tickets[1].id(), tickets[1].title(), tickets[1].text()), (20, "Second", ""));
    let one = github.read_ticket(3, &replies[0]).unwrap();
    assert_eq!((one.id(), one.title(), one.text()), (3, "First", "text"));
    assert!(github.get_ticket_details(&[], &replies).unwrap().is_empty());
    assert_eq!(github.get_ticket_details(&[1, 2, 3], &replies).unwrap().len(), 2);
}

#[test]
fn first_failing_reply_is_the_error_of_the_details() {
    let github = anonymous();
    let replies = vec![
        answer(200, r#"{"number":1,"title":"First"}"#),
        answer(404, r#"{"message":"Not Found"}"#),
        HttpReply::Failed("reset".to_string()),
    ];
    assert!(matches!(
        github.get_ticket_details(&[1, 2, 3], &replies),
        Err(UpstreamError::Other(text)) if text == "Issue is missing a title"
    ));
    assert!(matches!(
        github.read_ticket(3, &replies[2]),
        Err(UpstreamError::Io(text)) if text == "reset"
    ));
    assert!(matches!(
        github.read_ticket(3, &answer(401, "{}")),
        Err(UpstreamError::Authentication)
    ));
}
