//! What the program is asked to do.

use vstd::prelude::*;

verus! {

/// The command line.
#[derive(Debug)]
pub struct Cli {
    pub action: Action,
}

/// What to do.
#[derive(Debug)]
pub enum Action {
    /// Serve an editor.
    Run,
    /// Check the commit message in a file.
    Lint { file: String },
    /// Examine the environment and say what was found.
    Checkhealth,
}

} // verus!
