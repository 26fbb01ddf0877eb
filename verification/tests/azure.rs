use commit_lsp::issue_tracker::azure::AzureDevops;
use commit_lsp::issue_tracker::builder::TrackerConfig;
use commit_lsp::issue_tracker::http::{Authorization, HttpReply, Method, Payload};
use commit_lsp::issue_tracker::{Ticket, UpstreamError};
use commit_lsp::remote::RemoteDescriptor;
use secure_string::SecureString;

fn adapter() -> AzureDevops {
    let url = RemoteDescriptor::parse("https://Org@dev.azure.com/Org/Project/_git/Repo").unwrap();
    AzureDevops::new(TrackerConfig { url, secret: Some(SecureString::from("pat")) })
        .expect("an adapter")
}

fn answer(status: u16, body: &str) -> HttpReply {
    HttpReply::Response { status, body: body.as_bytes().to_vec() }
}

fn pair(name: &str, value: &str) -> (String, String) {
    (name.to_string(), value.to_string())
}

#[test]
fn adapter_needs_credential_organization_and_project() {
    let url = RemoteDescriptor::parse("https://Org@dev.azure.com/Org/Project/_git/Repo").unwrap();
    assert!(AzureDevops::new(TrackerConfig { url, secret: None }).is_none());
    let url = RemoteDescriptor::parse("https://github.com/owner/repo").unwrap();
    assert!(AzureDevops::new(TrackerConfig { url, secret: Some(SecureString::from("pat")) })
        .is_none());
    assert_eq!(adapter().credential().unsecure(), "pat");
}

#[test]
fn list_request_is_a_query() {
    let azure = adapter();
    assert_eq!(azure.base_url(), "https://dev.azure.com/Org/Project/_apis");
    let request = azure.list_request();
    assert_eq!(request.method, Method::Post);
    assert_eq!(request.url, "https://dev.azure.com/Org/Project/_apis/wit/wiql");
    assert_eq!(request.query, vec![pair("api-version", "7.0")]);
    assert_eq!(request.headers, vec![pair("Accept", "application/json")]);
    assert_eq!(request.authorization, Authorization::Basic);
    match request.payload {
        Payload::Query(query) => assert_eq!(
            query,
            "SELECT [System.Id] FROM WorkItems WHERE [System.TeamProject] = @project AND [Assigned To] = @me AND [System.Id] in (@MyRecentActivity)"
        ),
        other => panic!("unexpected payload {other:?}"),
    }
}

#[test]
fn details_request_names_ids_and_fields() {
    let request = adapter().details_request(&[3, 1, 2]);
    assert_eq!(request.method, Method::Post);
    assert_eq!(request.url, "https://dev.azure.com/Org/Project/_apis/wit/workitemsbatch");
    assert_eq!(request.query, vec![pair("api-version", "7.0")]);
    assert!(request.headers.is_empty());
    assert_eq!(request.authorization, Authorization::Basic);
    match request.payload {
        Payload::WorkItemsBatch { ids, fields } => {
            assert_eq!(ids, vec![3, 1, 2]);
            assert_eq!(fields, vec!["System.Title", "System.Description"]);
        }
        other => panic!("unexpected payload {other:?}"),
    }
}

#[test]
fn listed_numbers_are_read() {
    let reply = answer(
        200,
        r#"{"queryType":"flat","workItems":[{"id":12,"url":"u"},{"id":7},{"id":18446744073709551615}]}"#,
    );
    assert_eq!(adapter().list_ticket_numbers(&reply).unwrap(), vec![12, 7, u64::MAX]);
    let reply = answer(200, r#"{"workItems":[]}"#);
    assert!(adapter().list_ticket_numbers(&reply).unwrap().is_empty());
}

#[test]
fn list_reply_of_another_shape_is_an_error() {
    for body in [r#"{}"#, r#"{"workItems":3}"#, r#"[1,2]"#, r#"{"value":[]}"#] {
        assert!(
            matches!(
                adapter().list_ticket_numbers(&answer(200, body)),
                Err(UpstreamError::Other(text)) if text == "Unexpected response format"
            ),
            "{body}"
        );
    }
    for body in [
        r#"{"workItems":[{"id":"12"}]}"#,
        r#"{"workItems":[{"id":1},{"id":-2}]}"#,
        r#"{"workItems":[{"id":1.5}]}"#,
        r#"{"workItems":[{}]}"#,
        r#"{"workItems":[4]}"#,
    ] {
        assert!(
            matches!(
                adapter().list_ticket_numbers(&answer(200, body)),
                Err(UpstreamError::Other(text)) if text == "Got ID that is not an integer!"
            ),
            "{body}"
        );
    }
}

#[test]
fn refused_credential_is_an_authentication_error() {
    assert!(matches!(
        adapter().list_ticket_numbers(&answer(401, "")),
        Err(UpstreamError::Authentication)
    ));
    assert!(matches!(
        adapter().get_ticket_details(&answer(401, "{}")),
        Err(UpstreamError::Authentication)
    ));
}

#[test]
fn request_that_did_not_get_through_is_a_transport_error() {
    let reply = HttpReply::Failed("connection refused".to_string());
    assert!(matches!(
        adapter().list_ticket_numbers(&reply),
        Err(UpstreamError::Io(text)) if text == "connection refused"
    ));
    assert!(matches!(
        adapter().get_ticket_details(&reply),
        Err(UpstreamError::Io(text)) if text == "connection refused"
    ));
}

#[test]
fn body_that_is_no_json_is_an_error() {
    assert!(matches!(
        adapter().list_ticket_numbers(&answer(200, "<html>")),
        Err(UpstreamError::Other(text)) if text.starts_with("expected value")
    ));
    assert!(matches!(
        adapter().get_ticket_details(&HttpReply::Response { status: 200, body: vec![0xff] }),
        Err(UpstreamError::Other(_))
    ));
}

#[test]
fn details_are_read() {
    let reply = answer(
        200,
        r#"{"count":2,"value":[
            {"id":12,"rev":3,"fields":{"System.Title":"Fix bug","System.Description":"<div>Details</div>"}},
            {"id":7,"fields":{"System.Title":"No description"}}
        ]}"#,
    );
    let tickets = adapter().get_ticket_details(&reply).unwrap();
    assert_eq!(tickets.len(), 2);
    assert_eq!(tickets[0].id(), 12);
    assert_eq!(tickets[0].title(), "Fix bug");
    assert_eq!(tickets[0].text(), "<div>Details</div>");
    assert_eq!(tickets[1].id(), 7);
    assert_eq!(tickets[1].title(), "No description");
    assert_eq!(tickets[1].text(), "");
}

#[test]
fn details_of_another_shape_are_an_error() {
    assert!(matches!(
        adapter().get_ticket_details(&answer(200, r#"{"workItems":[]}"#)),
        Err(UpstreamError::Other(text)) if text == "Unexpected response format"
    ));
    assert!(matches!(
        adapter().get_ticket_details(&answer(200, r#"{"value":[{"fields":{"System.Title":"t"}}]}"#)),
        Err(UpstreamError::Other(text)) if text == "Item ID is not an integer"
    ));
    assert!(matches!(
        adapter().get_ticket_details(&answer(200, r#"{"value":[{"id":1,"fields":{}}]}"#)),
        Err(UpstreamError::Other(text)) if text == "Item is missing a title"
    ));
    assert!(matches!(
        adapter().get_ticket_details(&answer(
            200,
            r#"{"value":[{"id":1,"fields":{"System.Title":"t"}},{"id":2},{"fields":{}}]}"#
        )),
        Err(UpstreamError::Other(text)) if text == "Item is missing a title"
    ));
}

#[test]
fn work_items_pair_numbers_with_titles() {
    let details = vec![
        Ticket::new(1, "One".to_string(), "first".to_string()),
        Ticket::new(2, "Two".to_string(), String::new()),
    ];
    assert_eq!(
        AzureDevops::get_work_items(&vec![10, 20, 30], &details),
        vec![
            (10, ("One".to_string(), "first".to_string())),
            (20, ("Two".to_string(), String::new())),
        ]
    );
    assert!(AzureDevops::get_work_items(&Vec::new(), &details).is_empty());
}
