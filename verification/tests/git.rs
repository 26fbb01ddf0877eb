use commit_lsp::command::CommandOutcome;
use commit_lsp::git::{guess_repo_url, repo_url_query, RootProgress, RootQuery, RootSearch};
use commit_lsp::issue_tracker::UpstreamError;

fn printed(text: &str) -> CommandOutcome {
    CommandOutcome::Finished { code: Some(0), stdout: text.as_bytes().to_vec(), stderr: Vec::new() }
}

fn failed(code: i32) -> CommandOutcome {
    CommandOutcome::Finished { code: Some(code), stdout: Vec::new(), stderr: b"fatal".to_vec() }
}

fn go_on(progress: RootProgress) -> (RootSearch, RootQuery) {
    match progress {
        RootProgress::Continue(search, query) => (search, query),
        RootProgress::Found(dir) => panic!("found {dir} too early"),
        RootProgress::Failed(e) => panic!("failed too early: {e:?}"),
    }
}

const LISTING: &str = "worktree /repo\nHEAD 1111\nbranch refs/heads/main\n\nworktree /repo-linked\nHEAD 2222\nbranch refs/heads/topic\n";

/// Runs a search up to the scan of the two listed working trees.
fn search_up_to_scan(target: &str, common: &str) -> (RootSearch, RootQuery) {
    let (search, query) = RootSearch::start();
    assert!(matches!(query, RootQuery::TopLevel));
    let (search, query) = go_on(search.advance(&failed(128)));
    assert!(matches!(query, RootQuery::GitDir));
    let (search, query) = go_on(search.advance(&printed(target)));
    assert!(matches!(query, RootQuery::CommonDir));
    let (search, query) = go_on(search.advance(&printed(common)));
    assert!(matches!(query, RootQuery::Worktrees));
    go_on(search.advance(&printed(LISTING)))
}

#[test]
fn top_level_is_returned_when_the_simple_query_succeeds() {
    let (search, query) = RootSearch::start();
    assert_eq!(query.arguments(), vec!["rev-parse", "--show-toplevel"]);
    assert_eq!(query.directory(), None);
    match search.advance(&printed("/home/me/project\n")) {
        RootProgress::Found(dir) => assert_eq!(dir, "/home/me/project"),
        _ => panic!("expected the top-level directory"),
    }
}

#[test]
fn linked_worktree_resolves_to_its_own_directory() {
    let (search, query) =
        search_up_to_scan("/repo/.git/worktrees/repo-linked\n", "/repo/.git\n");
    match &query {
        RootQuery::CandidateGitDir(dir) => assert_eq!(dir, "/repo"),
        other => panic!("unexpected query {other:?}"),
    }
    assert_eq!(query.arguments(), vec!["rev-parse", "--git-dir"]);
    assert_eq!(query.directory(), Some("/repo"));
    // The main working tree answers with a path relative to itself.
    let (search, query) = go_on(search.advance(&printed(".git\n")));
    match &query {
        RootQuery::CandidateGitDir(dir) => assert_eq!(dir, "/repo-linked"),
        other => panic!("unexpected query {other:?}"),
    }
    match search.advance(&printed("/repo/.git/worktrees/repo-linked\n")) {
        RootProgress::Found(dir) => assert_eq!(dir, "/repo-linked"),
        _ => panic!("expected the linked working tree"),
    }
}

#[test]
fn unrelated_directory_is_not_in_a_repository() {
    let (search, _) = search_up_to_scan("/elsewhere/.git\n", "/elsewhere/.git\n");
    let (search, _) = go_on(search.advance(&printed(".git\n")));
    match search.advance(&printed("/repo/.git/worktrees/repo-linked\n")) {
        RootProgress::Failed(UpstreamError::Other(text)) => {
            assert_eq!(text, "Failed to find working directory")
        }
        _ => panic!("expected a failure"),
    }
}

#[test]
fn main_worktree_is_the_fallback() {
    let (search, _) = search_up_to_scan("/repo/.git/modules/x\n", "/repo/.git\n");
    let (search, _) = go_on(search.advance(&printed(".git\n")));
    match search.advance(&printed("/repo/.git/worktrees/repo-linked\n")) {
        RootProgress::Found(dir) => assert_eq!(dir, "/repo"),
        _ => panic!("expected the main working tree"),
    }
}

#[test]
fn stale_worktree_is_skipped() {
    let (search, _) =
        search_up_to_scan("/repo/.git/worktrees/repo-linked\n", "/repo/.git\n");
    let (search, query) = go_on(search.advance(&failed(128)));
    assert_eq!(query.directory(), Some("/repo-linked"));
    match search.advance(&CommandOutcome::NotStarted("No such file or directory".to_string())) {
        RootProgress::Failed(UpstreamError::Other(text)) => {
            assert_eq!(text, "Failed to find working directory")
        }
        _ => panic!("expected a failure"),
    }
}

#[test]
fn paths_are_compared_by_their_components() {
    let (search, _) = search_up_to_scan("/repo/.git/worktrees/repo-linked/\n", "/repo/.git\n");
    let (search, _) = go_on(search.advance(&printed(".git\n")));
    match search.advance(&printed("/repo/.git/worktrees/repo-linked\n")) {
        RootProgress::Found(dir) => assert_eq!(dir, "/repo-linked"),
        _ => panic!("expected the linked working tree"),
    }
}

#[test]
fn outside_a_repository_the_search_fails() {
    let (search, _) = RootSearch::start();
    let (search, _) = go_on(search.advance(&failed(128)));
    match search.advance(&failed(128)) {
        RootProgress::Failed(UpstreamError::Other(text)) => assert_eq!(text, "Not in git repo"),
        _ => panic!("expected a failure"),
    }
    let (search, _) = RootSearch::start();
    let (search, _) = go_on(search.advance(&failed(128)));
    let (search, _) = go_on(search.advance(&printed(".git\n")));
    match search.advance(&failed(1)) {
        RootProgress::Failed(UpstreamError::Other(text)) => assert_eq!(text, "Not in git repo"),
        _ => panic!("expected a failure"),
    }
}

#[test]
fn a_process_that_does_not_start_is_a_transport_error() {
    let (search, _) = RootSearch::start();
    match search.advance(&CommandOutcome::NotStarted("git: not found".to_string())) {
        RootProgress::Failed(UpstreamError::Io(text)) => assert_eq!(text, "git: not found"),
        _ => panic!("expected a transport error"),
    }
}

#[test]
fn a_failing_worktree_list_ends_the_search() {
    let (search, _) = RootSearch::start();
    let (search, _) = go_on(search.advance(&failed(128)));
    let (search, _) = go_on(search.advance(&printed(".git\n")));
    let (search, _) = go_on(search.advance(&printed(".git\n")));
    match search.advance(&failed(1)) {
        RootProgress::Failed(UpstreamError::Other(text)) => {
            assert_eq!(text, "Failed to get worktrees")
        }
        _ => panic!("expected a failure"),
    }
}

#[test]
fn output_that_is_no_text_is_an_error() {
    let (search, _) = RootSearch::start();
    let garbage =
        CommandOutcome::Finished { code: Some(0), stdout: vec![0xff, 0xfe], stderr: Vec::new() };
    match search.advance(&garbage) {
        RootProgress::Failed(UpstreamError::Other(text)) => {
            assert_eq!(text, "Command output is not valid UTF-8")
        }
        _ => panic!("expected a failure"),
    }
}

#[test]
fn repo_url_is_read_from_the_query() {
    assert_eq!(repo_url_query(), vec!["ls-remote", "--get-url", "origin"]);
    let (text, remote) = guess_repo_url(&printed("https://github.com/texel/commit-lsp.git\n")).unwrap();
    assert_eq!(text, "https://github.com/texel/commit-lsp.git");
    assert_eq!(remote.host.as_deref(), Some("github.com"));
    assert_eq!(remote.owner.as_deref(), Some("texel"));
    assert_eq!(remote.name, "commit-lsp");
}

#[test]
fn repo_url_query_can_fail() {
    assert!(matches!(
        guess_repo_url(&failed(2)),
        Err(UpstreamError::Other(text)) if text == "Failed to get repo url"
    ));
    assert!(matches!(
        guess_repo_url(&CommandOutcome::NotStarted("no git".to_string())),
        Err(UpstreamError::Io(text)) if text == "no git"
    ));
}
