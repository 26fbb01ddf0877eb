//! What the user and the repository configure.

use vstd::prelude::*;
use crate::issue_tracker::builder::IssueTrackerType;
use crate::text::{clone_strings, contains, is_substring, texts};

verus! {

/// The user's configuration.
#[derive(Debug, Default)]
pub struct User {
    pub remotes: Vec<Remote>,
}

/// What the user configures for the remotes whose URL holds `host`.
#[derive(Debug)]
pub struct Remote {
    pub host: String,
    /// The command whose output is the credential: the program, then its arguments.
    pub credentials_command: Option<Vec<String>>,
    pub issue_tracker_type: Option<IssueTrackerType>,
    pub issue_tracker_url: Option<String>,
}

/// The repository's configuration.
#[derive(Debug, Default)]
pub struct Repository {
    pub types: Vec<CommitElementDefinition>,
    pub scopes: Vec<CommitElementDefinition>,
    pub issue_tracker_type: Option<IssueTrackerType>,
    pub issue_tracker_url: Option<String>,
}

/// A commit type or scope that the repository defines.
#[derive(Debug, Default)]
pub struct CommitElementDefinition {
    pub name: String,
    pub summary: String,
    pub description: String,
}

impl Clone for CommitElementDefinition {
    fn clone(&self) -> (r: Self)
        ensures
            r == *self,
    {
        CommitElementDefinition {
            name: self.name.clone(),
            summary: self.summary.clone(),
            description: self.description.clone(),
        }
    }
}

/// What a remote configures, as plain values.
pub struct RemoteView {
    pub host: Seq<char>,
    pub credentials_command: Option<Seq<Seq<char>>>,
    pub issue_tracker_type: Option<IssueTrackerType>,
    pub issue_tracker_url: Option<Seq<char>>,
}

impl View for Remote {
    type V = RemoteView;

    open spec fn view(&self) -> RemoteView {
        RemoteView {
            host: self.host@,
            credentials_command: match self.credentials_command {
                Some(c) => Some(texts(c@)),
                None => None,
            },
            issue_tracker_type: self.issue_tracker_type,
            issue_tracker_url: match self.issue_tracker_url {
                Some(u) => Some(u@),
                None => None,
            },
        }
    }
}

impl Clone for Remote {
    fn clone(&self) -> (r: Self)
        ensures
            r@ == self@,
    {
        Remote {
            host: self.host.clone(),
            credentials_command: match &self.credentials_command {
                Some(c) => Some(clone_strings(c)),
                None => None,
            },
            issue_tracker_type: self.issue_tracker_type,
            issue_tracker_url: self.issue_tracker_url.clone(),
        }
    }
}

/// The index of the first of `remotes`, from `from` on, whose host occurs in `url`.
pub open spec fn first_matching(remotes: Seq<Remote>, url: Seq<char>, from: int) -> Option<int>
    decreases remotes.len() - from,
{
    if from < 0 || from >= remotes.len() {
        None
    } else if is_substring(url, remotes[from].host@) {
        Some(from)
    } else {
        first_matching(remotes, url, from + 1)
    }
}

/// Whether the entry at `i` is the first whose host occurs in `url`.
pub open spec fn is_first_match(remotes: Seq<Remote>, url: Seq<char>, i: int) -> bool {
    &&& 0 <= i < remotes.len()
    &&& is_substring(url, remotes[i].host@)
    &&& forall|j: int| 0 <= j < i ==> !is_substring(url, #[trigger] remotes[j].host@)
}

/// Whether no entry has a host that occurs in `url`.
pub open spec fn no_match(remotes: Seq<Remote>, url: Seq<char>) -> bool {
    forall|j: int| 0 <= j < remotes.len() ==> !is_substring(url, #[trigger] remotes[j].host@)
}

/// What `first_matching` finds is the first match, and it finds one if there is one.
pub proof fn lemma_first_matching(remotes: Seq<Remote>, url: Seq<char>, from: int)
    requires
        0 <= from,
    ensures
        match first_matching(remotes, url, from) {
            Some(i) => {
                &&& from <= i < remotes.len()
                &&& is_substring(url, remotes[i].host@)
                &&& forall|j: int| from <= j < i ==> !is_substring(url, #[trigger] remotes[j].host@)
            },
            None => forall|j: int|
                from <= j < remotes.len() ==> !is_substring(url, #[trigger] remotes[j].host@),
        },
    decreases remotes.len() - from,
{
    if from < remotes.len() && !is_substring(url, remotes[from].host@) {
        lemma_first_matching(remotes, url, from + 1);
    }
}

impl User {
    /// Finds remote specific configuration for a given url, if it exists.
    ///
    /// Matching happens via a simple substring match of the `host` setting.
    /// The first host that is contained in the url is picked.
    pub fn remote_specific_configuration(&self, url: &str) -> (r: Option<&Remote>)
        ensures
            match r {
                Some(remote) => first_matching(self.remotes@, url@, 0) matches Some(i)
                    && *remote == self.remotes@[i] && is_first_match(self.remotes@, url@, i),
                None => first_matching(self.remotes@, url@, 0) is None && no_match(
                    self.remotes@,
                    url@,
                ),
            },
    {
        let mut i: usize = 0;
        while i < self.remotes.len()
            invariant
                i <= self.remotes@.len(),
                first_matching(self.remotes@, url@, 0) == first_matching(
                    self.remotes@,
                    url@,
                    i as int,
                ),
            decreases self.remotes@.len() - i,
        {
            if contains(url, self.remotes[i].host.as_str()) {
                proof {
                    lemma_first_matching(self.remotes@, url@, 0);
                }
                return Some(&self.remotes[i]);
            }
            i += 1;
        }
        proof {
            lemma_first_matching(self.remotes@, url@, 0);
        }
        None
    }
}

} // verus!
