use commit_lsp::issue_tracker::builder::TrackerConfig;
use commit_lsp::issue_tracker::gitlab::{
    ApiFailure, Gitlab, GitlabFailure, GitlabIssue, IssueFilter,
};
use commit_lsp::issue_tracker::UpstreamError;
use commit_lsp::remote::RemoteDescriptor;
use secure_string::SecureString;

fn adapter() -> Gitlab {
    Gitlab::new(SecureString::from("tok"), "gitlab.com".to_string(), "group/project".to_string())
}

fn issue(iid: u64, title: &str, description: &str) -> GitlabIssue {
    GitlabIssue { iid, title: title.to_string(), description: description.to_string() }
}

#[test]
fn gitlab_adapter_is_made_from_the_remote() {
    let url = RemoteDescriptor::parse("git@gitlab.example.com:group/project.git").unwrap();
    let gitlab = Gitlab::from_config(TrackerConfig { url, secret: Some(SecureString::from("t")) })
        .expect("an adapter");
    assert_eq!(gitlab.host(), "gitlab.example.com");
    assert_eq!(gitlab.credential().unsecure(), "t");
    assert_eq!(gitlab.list_query().project, "group/project");
    let url = RemoteDescriptor::parse("git@gitlab.example.com:group/project.git").unwrap();
    assert!(Gitlab::from_config(TrackerConfig { url, secret: None }).is_none());
}

#[test]
fn questions() {
    let gitlab = adapter();
    let list = gitlab.list_query();
    assert_eq!(list.project, "group/project");
    assert!(matches!(list.filter, IssueFilter::Opened));
    let details = gitlab.details_query(&[4, 2]);
    assert_eq!(details.project, "group/project");
    assert!(matches!(details.filter, IssueFilter::Numbers(ids) if ids == vec![4, 2]));
}

#[test]
fn answers_are_read_in_order() {
    let gitlab = adapter();
    let reply = Ok(vec![issue(4, "Four", "d4"), issue(2, "Two", "")]);
    assert_eq!(gitlab.list_ticket_numbers(&reply).unwrap(), vec![4, 2]);
    let tickets = gitlab.get_ticket_details(&reply).unwrap();
    assert_eq!(tickets.len(), 2);
    assert_eq!((tickets[0].id(), tickets[0].title(), tickets[0].text()), (4, "Four", "d4"));
    assert_eq!((tickets[1].id(), tickets[1].title(), tickets[1].text()), (2, "Two", ""));
}

#[test]
fn failures_map_onto_the_shared_errors() {
    let gitlab = adapter();
    assert!(matches!(
        gitlab.list_ticket_numbers(&Err(GitlabFailure::Auth)),
        Err(UpstreamError::Authentication)
    ));
    assert!(matches!(
        gitlab.get_ticket_details(&Err(GitlabFailure::Communication("down".to_string()))),
        Err(UpstreamError::Io(text)) if text == "down"
    ));
    assert!(matches!(
        gitlab.get_ticket_details(&Err(GitlabFailure::Other("odd".to_string()))),
        Err(UpstreamError::Other(text)) if text == "odd"
    ));
    assert!(matches!(
        GitlabFailure::Api(ApiFailure::ClientAuth).into_error(),
        UpstreamError::Authentication
    ));
    assert!(matches!(
        GitlabFailure::Api(ApiFailure::Auth).into_error(),
        UpstreamError::Authentication
    ));
    assert!(matches!(
        GitlabFailure::Api(ApiFailure::ClientCommunication("reset".to_string())).into_error(),
        UpstreamError::Io(text) if text == "reset"
    ));
    assert!(matches!(
        GitlabFailure::Api(ApiFailure::Other("moved".to_string())).into_error(),
        UpstreamError::Other(text) if text == "moved"
    ));
}
