use commit_lsp::config::{Remote, User};
use commit_lsp::issue_tracker::builder::IssueTrackerType;

fn remote(host: &str) -> Remote {
    Remote {
        host: host.to_string(),
        credentials_command: None,
        issue_tracker_type: None,
        issue_tracker_url: None,
    }
}

#[test]
fn first_matching_remote_is_picked() {
    let mut second = remote("example");
    second.issue_tracker_type = Some(IssueTrackerType::Gitlab);
    let user = User { remotes: vec![remote("github.com"), second, remote("example.com")] };
    let found = user.remote_specific_configuration("git@git.example.com:group/project.git");
    let found = found.expect("a remote matches");
    assert_eq!(found.host, "example");
    assert_eq!(found.issue_tracker_type, Some(IssueTrackerType::Gitlab));
}

#[test]
fn order_of_the_remotes_decides() {
    let user = User { remotes: vec![remote("example.com"), remote("example")] };
    let found = user.remote_specific_configuration("https://example.com/a/b").unwrap();
    assert_eq!(found.host, "example.com");
    let user = User { remotes: vec![remote("example"), remote("example.com")] };
    let found = user.remote_specific_configuration("https://example.com/a/b").unwrap();
    assert_eq!(found.host, "example");
}

#[test]
fn no_remote_matches() {
    let user = User { remotes: vec![remote("github.com"), remote("gitlab")] };
    assert!(user.remote_specific_configuration("https://bitbucket.org/a/b").is_none());
    let nobody = User::default();
    assert!(nobody.remote_specific_configuration("https://github.com/a/b").is_none());
}

#[test]
fn match_is_by_substring_anywhere_in_the_url() {
    let user = User { remotes: vec![remote("a/b")] };
    assert!(user.remote_specific_configuration("https://github.com/a/b").is_some());
    let user = User { remotes: vec![remote("GitHub")] };
    assert!(user.remote_specific_configuration("https://github.com/a/b").is_none());
}
