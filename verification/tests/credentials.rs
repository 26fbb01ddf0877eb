use commit_lsp::command::CommandOutcome;
use commit_lsp::credentials::{
    get_credentials, resolve_credentials, split_command, CredentialOutcome,
};

#[test]
fn failing_command_carries_its_status() {
    let outcome = CommandOutcome::Finished {
        code: Some(1),
        stdout: b"ignored".to_vec(),
        stderr: b"no such entry".to_vec(),
    };
    match get_credentials(&outcome) {
        CredentialOutcome::Failed { code, stderr } => {
            assert_eq!(code, Some(1));
            assert_eq!(stderr, b"no such entry");
        }
        _ => panic!("expected a failure"),
    }
}

#[test]
fn successful_command_yields_the_trimmed_secret() {
    let outcome = CommandOutcome::Finished {
        code: Some(0),
        stdout: b"  secret\n".to_vec(),
        stderr: Vec::new(),
    };
    match get_credentials(&outcome) {
        CredentialOutcome::Secret(secret) => assert_eq!(secret.unsecure(), "secret"),
        _ => panic!("expected a secret"),
    }
}

#[test]
fn killed_command_is_a_failure_without_status() {
    let outcome =
        CommandOutcome::Finished { code: None, stdout: b"x".to_vec(), stderr: Vec::new() };
    assert!(matches!(
        get_credentials(&outcome),
        CredentialOutcome::Failed { code: None, .. }
    ));
}

#[test]
fn command_that_does_not_start_is_reported() {
    let outcome = CommandOutcome::NotStarted("pass: not found".to_string());
    assert!(matches!(
        get_credentials(&outcome),
        CredentialOutcome::NotStarted(reason) if reason == "pass: not found"
    ));
}

#[test]
fn secret_that_is_no_text_is_reported() {
    let outcome =
        CommandOutcome::Finished { code: Some(0), stdout: vec![0xc3, 0x28], stderr: Vec::new() };
    assert!(matches!(get_credentials(&outcome), CredentialOutcome::NotText));
}

#[test]
fn empty_or_missing_command_is_not_configured() {
    let outcome =
        CommandOutcome::Finished { code: Some(0), stdout: b"s".to_vec(), stderr: Vec::new() };
    assert!(matches!(
        resolve_credentials(None, Some(&outcome)),
        CredentialOutcome::NotConfigured
    ));
    let empty: Vec<String> = Vec::new();
    assert!(matches!(
        resolve_credentials(Some(&empty), Some(&outcome)),
        CredentialOutcome::NotConfigured
    ));
    assert_eq!(split_command(&empty), None);
}

#[test]
fn command_line_splits_into_program_and_arguments() {
    let cmd = vec!["pass".to_string(), "show".to_string(), "github".to_string()];
    assert_eq!(
        split_command(&cmd),
        Some(("pass".to_string(), vec!["show".to_string(), "github".to_string()]))
    );
    let outcome =
        CommandOutcome::Finished { code: Some(0), stdout: b"tok\n".to_vec(), stderr: Vec::new() };
    match resolve_credentials(Some(&cmd), Some(&outcome)) {
        CredentialOutcome::Secret(secret) => assert_eq!(secret.unsecure(), "tok"),
        _ => panic!("expected a secret"),
    }
    assert!(matches!(
        resolve_credentials(Some(&cmd), None),
        CredentialOutcome::NotStarted(_)
    ));
}
