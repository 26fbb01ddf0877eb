//! Links a commit-message assistant to the issue tracker that a repository uses.
//!
//! The crate holds the decisions of that link: which tracker a remote belongs
//! to, what to ask it, how to read what it answers, what the ticket cache holds
//! afterwards, and where the repository's root is. Running processes and
//! talking to the network is left to the caller, who hands in what came back.

pub mod analysis;
pub mod cli;
pub mod command;
pub mod config;
pub mod credentials;
pub mod git;
pub mod healthcheck;
pub mod issue_tracker;
pub mod json;
pub mod lsp;
pub mod remote;
pub mod text;
pub mod text_util;
