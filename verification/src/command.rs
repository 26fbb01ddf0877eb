//! What running an external program gave back.
//!
//! The crate never starts a process: the caller does, and reports the
//! outcome in these terms.

use vstd::prelude::*;

verus! {

/// What came of running one command.
#[derive(Debug)]
pub enum CommandOutcome {
    /// The process could not be started; the text is the system's reason.
    NotStarted(String),
    /// The process ran to its end.
    Finished {
        /// Its exit code, if it ended by exiting.
        code: Option<i32>,
        /// What it wrote to its standard output.
        stdout: Vec<u8>,
        /// What it wrote to its error stream.
        stderr: Vec<u8>,
    },
}

/// A command succeeded if it exited with code 0.
pub open spec fn is_success(code: Option<i32>) -> bool {
    code == Some(0i32)
}

impl CommandOutcome {
    /// The standard output of a command that ran and succeeded.
    pub open spec fn successful_output(&self) -> Option<Seq<u8>> {
        match self {
            CommandOutcome::Finished { code, stdout, .. } if is_success(*code) => Some(stdout@),
            _ => None,
        }
    }

    /// Whether the command ran and exited with code 0.
    pub fn succeeded(&self) -> (r: bool)
        ensures
            r == (self.successful_output() is Some),
    {
        match self {
            CommandOutcome::Finished { code, .. } => match code {
                Some(c) => *c == 0,
                None => false,
            },
            CommandOutcome::NotStarted(_) => false,
        }
    }
}

} // verus!
