//! The credential for a tracker, as a command of the user's prints it.
//!
//! The crate does not run the command. It says what is to be run, and reads
//! the outcome: the secret is what the command wrote to its standard output,
//! without the white space around it.

use vstd::prelude::*;
use secure_string::SecureString;
use crate::command::{is_success, CommandOutcome};
use crate::text::{text_of_bytes, texts, trim, trim_of, utf8_text};

verus! {

/// `secure_string::SecureString`, a string that is kept out of logs and wiped
/// when it is dropped.
#[verifier::external_type_specification]
#[verifier::external_body]
pub struct ExSecureString(secure_string::SecureString);

/// The characters that a `SecureString` holds.
pub uninterp spec fn secret_text(secret: &SecureString) -> Seq<char>;

/// Locks a text away as a secret.
///
/// Trusted: calls `SecureString::from`, which moves the bytes of the string
/// into the secret unchanged.
#[verifier::external_body]
fn seal(text: String) -> (r: SecureString)
    ensures
        secret_text(&r) == text@,
{
    SecureString::from(text)
}

/// What came of asking for the credential.
pub enum CredentialOutcome {
    /// No command is configured.
    NotConfigured,
    /// The command could not be started; the system's reason.
    NotStarted(String),
    /// The command did not exit with code 0.
    Failed {
        /// Its exit code, if it ended by exiting.
        code: Option<i32>,
        /// What it wrote to its error stream.
        stderr: Vec<u8>,
    },
    /// The command succeeded, and what it printed is no text.
    NotText,
    /// The credential.
    Secret(SecureString),
}

pub enum CredentialOutcomeView {
    NotConfigured,
    NotStarted(Seq<char>),
    Failed { code: Option<i32>, stderr: Seq<u8> },
    NotText,
    Secret(Seq<char>),
}

impl View for CredentialOutcome {
    type V = CredentialOutcomeView;

    open spec fn view(&self) -> CredentialOutcomeView {
        match self {
            CredentialOutcome::NotConfigured => CredentialOutcomeView::NotConfigured,
            CredentialOutcome::NotStarted(m) => CredentialOutcomeView::NotStarted(m@),
            CredentialOutcome::Failed { code, stderr } => CredentialOutcomeView::Failed {
                code: *code,
                stderr: stderr@,
            },
            CredentialOutcome::NotText => CredentialOutcomeView::NotText,
            CredentialOutcome::Secret(s) => CredentialOutcomeView::Secret(secret_text(s)),
        }
    }
}

/// The program and the arguments of a command line; none if it is empty.
pub open spec fn command_parts(cmdline: Seq<Seq<char>>) -> Option<(Seq<char>, Seq<Seq<char>>)> {
    if cmdline.len() == 0 {
        None
    } else {
        Some((cmdline[0], cmdline.skip(1)))
    }
}

/// What the outcome of the credential command means.
pub open spec fn credential_read(outcome: CommandOutcome) -> CredentialOutcomeView {
    match outcome {
        CommandOutcome::NotStarted(reason) => CredentialOutcomeView::NotStarted(reason@),
        CommandOutcome::Finished { code, stdout, stderr } => if is_success(code) {
            match utf8_text(stdout@) {
                Some(t) => CredentialOutcomeView::Secret(trim_of(t)),
                None => CredentialOutcomeView::NotText,
            }
        } else {
            CredentialOutcomeView::Failed { code, stderr: stderr@ }
        },
    }
}

/// What asking for the credential comes to: without a command line, or with
/// an empty one, nothing is configured; otherwise it is what the outcome of
/// the command means, and no outcome counts as a command that did not start.
pub open spec fn credential_resolved(
    cmdline: Option<Seq<Seq<char>>>,
    outcome: Option<CommandOutcome>,
) -> CredentialOutcomeView {
    match cmdline {
        Some(c) if c.len() > 0 => match outcome {
            Some(o) => credential_read(o),
            None => CredentialOutcomeView::NotStarted(Seq::<char>::empty()),
        },
        _ => CredentialOutcomeView::NotConfigured,
    }
}

/// Splits a command line into the program and its arguments.
pub fn split_command(cmdline: &Vec<String>) -> (r: Option<(String, Vec<String>)>)
    ensures
        match r {
            Some((program, args)) => command_parts(texts(cmdline@)) == Some(
                (program@, texts(args@)),
            ),
            None => command_parts(texts(cmdline@)) is None,
        },
{
    if cmdline.len() == 0 {
        return None;
    }
    let program = cmdline[0].clone();
    let mut args: Vec<String> = Vec::new();
    let mut i: usize = 1;
    while i < cmdline.len()
        invariant
            1 <= i <= cmdline@.len(),
            texts(args@) == texts(cmdline@).subrange(1, i as int),
        decreases cmdline@.len() - i,
    {
        let ghost before = texts(args@);
        args.push(cmdline[i].clone());
        assert(texts(args@) =~= before.push(cmdline@[i as int]@));
        assert(texts(cmdline@).subrange(1, i + 1) =~= texts(cmdline@).subrange(1, i as int).push(
            cmdline@[i as int]@,
        ));
        i += 1;
    }
    assert(texts(cmdline@).subrange(1, cmdline@.len() as int) =~= texts(cmdline@).skip(1));
    Some((program, args))
}

/// Reads the outcome of the credential command.
pub fn get_credentials(outcome: &CommandOutcome) -> (r: CredentialOutcome)
    ensures
        r@ == credential_read(*outcome),
{
    match outcome {
        CommandOutcome::NotStarted(reason) => CredentialOutcome::NotStarted(reason.clone()),
        CommandOutcome::Finished { code, stdout, stderr } => {
            if !outcome.succeeded() {
                return CredentialOutcome::Failed { code: *code, stderr: stderr.clone() };
            }
            match text_of_bytes(stdout) {
                Some(t) => CredentialOutcome::Secret(seal(trim(t.as_str()))),
                None => CredentialOutcome::NotText,
            }
        },
    }
}

/// Says what asking for the credential came to, given the configured command
/// line and the outcome of running it.
pub fn resolve_credentials(cmdline: Option<&Vec<String>>, outcome: Option<&CommandOutcome>) -> (r:
    CredentialOutcome)
    ensures
        r@ == credential_resolved(
            match cmdline {
                Some(c) => Some(texts(c@)),
                None => None,
            },
            match outcome {
                Some(o) => Some(*o),
                None => None,
            },
        ),
{
    match cmdline {
        Some(c) => {
            if c.len() == 0 {
                return CredentialOutcome::NotConfigured;
            }
            match outcome {
                Some(o) => get_credentials(o),
                None => CredentialOutcome::NotStarted(String::new()),
            }
        },
        None => CredentialOutcome::NotConfigured,
    }
}

} // verus!
