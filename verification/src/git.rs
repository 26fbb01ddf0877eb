//! Finding the top-level directory of the repository, also from a linked
//! working tree.
//!
//! The search is a conversation with `git`: [`RootSearch`] says which query to
//! run next and, given what the query printed, either asks the next one or
//! ends with a directory or an error. The caller runs the processes.

use vstd::prelude::*;
use crate::command::CommandOutcome;
use crate::issue_tracker::{UpstreamError, UpstreamErrorView};
use crate::remote::{remote_parsed, RemoteDescriptor, RemoteDescriptorView};
use crate::text::{
    has_prefix, lines_of, texts, trim_end_of, trim_of, utf8_text,
};

verus! {

/// The path that `std::path::Path::join` makes of a directory and a path
/// relative to it, as text.
pub uninterp spec fn path_joined(base: Seq<char>, relative: Seq<char>) -> Seq<char>;

/// Whether `std::path::Path` holds the two paths for equal, which it decides
/// component by component.
pub uninterp spec fn paths_equal(a: Seq<char>, b: Seq<char>) -> bool;

/// The path `relative` seen from the directory `base`.
///
/// Trusted: calls `Path::join`. Nothing is claimed of the result but that it
/// is what `join` gives for these two texts.
#[verifier::external_body]
fn join_path(base: &str, relative: &str) -> (r: String)
    ensures
        r@ == path_joined(base@, relative@),
{
    std::path::Path::new(base).join(relative).to_string_lossy().into_owned()
}

/// Whether two texts name the same path.
///
/// Trusted: calls the `==` of `std::path::Path`. Nothing is claimed of the
/// result but that it is what that comparison gives for these two texts.
#[verifier::external_body]
fn same_path(a: &str, b: &str) -> (r: bool)
    ensures
        r == paths_equal(a@, b@),
{
    std::path::Path::new(a) == std::path::Path::new(b)
}

/// One query to `git`.
#[derive(Debug)]
pub enum RootQuery {
    /// `git rev-parse --show-toplevel`
    TopLevel,
    /// `git rev-parse --git-dir`
    GitDir,
    /// `git rev-parse --git-common-dir`
    CommonDir,
    /// `git worktree list --porcelain`
    Worktrees,
    /// `git rev-parse --git-dir`, run in the given directory
    CandidateGitDir(String),
}

pub enum RootQueryView {
    TopLevel,
    GitDir,
    CommonDir,
    Worktrees,
    CandidateGitDir(Seq<char>),
}

impl View for RootQuery {
    type V = RootQueryView;

    open spec fn view(&self) -> RootQueryView {
        match self {
            RootQuery::TopLevel => RootQueryView::TopLevel,
            RootQuery::GitDir => RootQueryView::GitDir,
            RootQuery::CommonDir => RootQueryView::CommonDir,
            RootQuery::Worktrees => RootQueryView::Worktrees,
            RootQuery::CandidateGitDir(d) => RootQueryView::CandidateGitDir(d@),
        }
    }
}

/// The arguments that a query hands to `git`.
pub open spec fn query_arguments(q: RootQueryView) -> Seq<Seq<char>> {
    match q {
        RootQueryView::TopLevel => seq!["rev-parse"@, "--show-toplevel"@],
        RootQueryView::GitDir => seq!["rev-parse"@, "--git-dir"@],
        RootQueryView::CommonDir => seq!["rev-parse"@, "--git-common-dir"@],
        RootQueryView::Worktrees => seq!["worktree"@, "list"@, "--porcelain"@],
        RootQueryView::CandidateGitDir(_) => seq!["rev-parse"@, "--git-dir"@],
    }
}

impl RootQuery {
    /// The arguments to hand to `git`.
    pub fn arguments(&self) -> (r: Vec<String>)
        ensures
            texts(r@) == query_arguments(self@),
    {
        let mut args: Vec<String> = Vec::new();
        match self {
            RootQuery::TopLevel => {
                args.push(crate::text::owned("rev-parse"));
                args.push(crate::text::owned("--show-toplevel"));
            },
            RootQuery::GitDir => {
                args.push(crate::text::owned("rev-parse"));
                args.push(crate::text::owned("--git-dir"));
            },
            RootQuery::CommonDir => {
                args.push(crate::text::owned("rev-parse"));
                args.push(crate::text::owned("--git-common-dir"));
            },
            RootQuery::Worktrees => {
                args.push(crate::text::owned("worktree"));
                args.push(crate::text::owned("list"));
                args.push(crate::text::owned("--porcelain"));
            },
            RootQuery::CandidateGitDir(_) => {
                args.push(crate::text::owned("rev-parse"));
                args.push(crate::text::owned("--git-dir"));
            },
        }
        assert(texts(args@) =~= query_arguments(self@));
        args
    }

    /// The directory to run `git` in, where it is not the current one.
    pub fn directory(&self) -> (r: Option<&str>)
        ensures
            match r {
                Some(d) => self@ == RootQueryView::CandidateGitDir(d@),
                None => !(self@ is CandidateGitDir),
            },
    {
        match self {
            RootQuery::CandidateGitDir(d) => Some(d.as_str()),
            _ => None,
        }
    }
}

/// Where a search stands.
#[derive(Clone, Copy)]
pub enum Stage {
    /// Waiting for the top-level directory.
    TopLevel,
    /// Waiting for the metadata directory of the current directory.
    GitDir,
    /// Waiting for the metadata directory that all working trees share.
    CommonDir,
    /// Waiting for the list of working trees.
    Worktrees,
    /// Waiting for the metadata directory of one listed working tree.
    Scanning,
}

/// A search, as plain values.
pub struct RootSearchView {
    pub stage: Stage,
    /// The metadata directory of the current directory.
    pub target: Seq<char>,
    /// The metadata directory shared by all working trees.
    pub common: Seq<char>,
    /// The directories of the listed working trees.
    pub candidates: Seq<Seq<char>>,
    /// The index of the candidate that is being asked about.
    pub next: int,
    /// The last candidate seen whose metadata directory is the shared one.
    pub fallback: Option<Seq<char>>,
}

/// The search for the repository's top-level directory.
pub struct RootSearch {
    stage: Stage,
    target: String,
    common: String,
    candidates: Vec<String>,
    next: usize,
    fallback: Option<String>,
}

/// What a search does after an answer.
pub enum RootProgress {
    /// Run this query and hand its outcome to the search.
    Continue(RootSearch, RootQuery),
    /// The top-level directory.
    Found(String),
    /// There is none to be found.
    Failed(UpstreamError),
}

pub enum RootProgressView {
    Continue(RootSearchView, RootQueryView),
    Found(Seq<char>),
    Failed(UpstreamErrorView),
}

impl View for RootProgress {
    type V = RootProgressView;

    open spec fn view(&self) -> RootProgressView {
        match self {
            RootProgress::Continue(s, q) => RootProgressView::Continue(s@, q@),
            RootProgress::Found(p) => RootProgressView::Found(p@),
            RootProgress::Failed(e) => RootProgressView::Failed(e@),
        }
    }
}

/// What a command printed, as text.
pub enum Printed {
    /// The process did not start; the system's reason.
    NotStarted(Seq<char>),
    /// The command failed.
    Failure,
    /// The command succeeded and printed something that is no text.
    NotText,
    /// The command succeeded and printed this.
    Text(Seq<char>),
}

/// How a search reads the outcome of a command.
pub open spec fn printed(outcome: CommandOutcome) -> Printed {
    match outcome {
        CommandOutcome::NotStarted(reason) => Printed::NotStarted(reason@),
        CommandOutcome::Finished { code, stdout, stderr } => if crate::command::is_success(code) {
            match utf8_text(stdout@) {
                Some(t) => Printed::Text(t),
                None => Printed::NotText,
            }
        } else {
            Printed::Failure
        },
    }
}

/// The marker in front of a working tree's directory in the list of working trees.
pub open spec fn worktree_marker() -> Seq<char> {
    "worktree "@
}

/// The working-tree directories named by these lines of a list of working
/// trees: what follows the marker on each line that begins with it.
pub open spec fn listed_worktrees(lines: Seq<Seq<char>>) -> Seq<Seq<char>>
    decreases lines.len(),
{
    if lines.len() == 0 {
        Seq::<Seq<char>>::empty()
    } else {
        let before = listed_worktrees(lines.drop_last());
        if has_prefix(lines.last(), worktree_marker()) {
            before.push(lines.last().skip(worktree_marker().len() as int))
        } else {
            before
        }
    }
}

/// The working-tree directories in a list of working trees.
pub open spec fn worktree_paths(listing: Seq<char>) -> Seq<Seq<char>> {
    listed_worktrees(lines_of(listing))
}

pub open spec fn not_text() -> Seq<char> {
    "Command output is not valid UTF-8"@
}

pub open spec fn not_in_repo() -> Seq<char> {
    "Not in git repo"@
}

pub open spec fn no_worktrees() -> Seq<char> {
    "Failed to get worktrees"@
}

pub open spec fn no_working_directory() -> Seq<char> {
    "Failed to find working directory"@
}

/// A search among candidates goes on with the next one, if there is one, and
/// otherwise ends with the fallback, if there is one.
pub open spec fn scan(s: RootSearchView) -> RootProgressView {
    if 0 <= s.next < s.candidates.len() {
        RootProgressView::Continue(s, RootQueryView::CandidateGitDir(s.candidates[s.next]))
    } else {
        match s.fallback {
            Some(p) => RootProgressView::Found(p),
            None => RootProgressView::Failed(UpstreamErrorView::Other(no_working_directory())),
        }
    }
}

/// The metadata directory of a candidate, as the candidate's query printed
/// it; none where that query did not succeed or printed no text.
pub open spec fn candidate_git_dir(candidate: Seq<char>, p: Printed) -> Option<Seq<char>> {
    match p {
        Printed::Text(t) => Some(path_joined(candidate, trim_end_of(t))),
        _ => None,
    }
}

/// What a search does once the query it asked for has printed `p`.
pub open spec fn advanced(s: RootSearchView, p: Printed) -> RootProgressView {
    match s.stage {
        Stage::TopLevel => match p {
            Printed::NotStarted(reason) => RootProgressView::Failed(UpstreamErrorView::Io(reason)),
            Printed::NotText => RootProgressView::Failed(UpstreamErrorView::Other(not_text())),
            Printed::Text(t) => RootProgressView::Found(trim_of(t)),
            Printed::Failure => RootProgressView::Continue(
                RootSearchView { stage: Stage::GitDir, ..s },
                RootQueryView::GitDir,
            ),
        },
        Stage::GitDir => match p {
            Printed::NotStarted(reason) => RootProgressView::Failed(UpstreamErrorView::Io(reason)),
            Printed::NotText => RootProgressView::Failed(UpstreamErrorView::Other(not_text())),
            Printed::Failure => RootProgressView::Failed(UpstreamErrorView::Other(not_in_repo())),
            Printed::Text(t) => RootProgressView::Continue(
                RootSearchView { stage: Stage::CommonDir, target: trim_end_of(t), ..s },
                RootQueryView::CommonDir,
            ),
        },
        Stage::CommonDir => match p {
            Printed::NotStarted(reason) => RootProgressView::Failed(UpstreamErrorView::Io(reason)),
            Printed::NotText => RootProgressView::Failed(UpstreamErrorView::Other(not_text())),
            Printed::Failure => RootProgressView::Failed(UpstreamErrorView::Other(not_in_repo())),
            Printed::Text(t) => RootProgressView::Continue(
                RootSearchView { stage: Stage::Worktrees, common: trim_end_of(t), ..s },
                RootQueryView::Worktrees,
            ),
        },
        Stage::Worktrees => match p {
            Printed::NotStarted(reason) => RootProgressView::Failed(UpstreamErrorView::Io(reason)),
            Printed::NotText => RootProgressView::Failed(UpstreamErrorView::Other(not_text())),
            Printed::Failure => RootProgressView::Failed(UpstreamErrorView::Other(no_worktrees())),
            Printed::Text(t) => scan(
                RootSearchView {
                    stage: Stage::Scanning,
                    candidates: worktree_paths(t),
                    next: 0,
                    fallback: None,
                    ..s
                },
            ),
        },
        Stage::Scanning => {
            let candidate = s.candidates[s.next];
            match candidate_git_dir(candidate, p) {
                Some(dir) => if paths_equal(dir, s.target) {
                    RootProgressView::Found(candidate)
                } else if paths_equal(dir, s.common) {
                    scan(RootSearchView { next: s.next + 1, fallback: Some(candidate), ..s })
                } else {
                    scan(RootSearchView { next: s.next + 1, ..s })
                },
                None => scan(RootSearchView { next: s.next + 1, ..s }),
            }
        },
    }
}

/// A search that has asked nothing yet but its first query.
pub open spec fn initial_search() -> RootSearchView {
    RootSearchView {
        stage: Stage::TopLevel,
        target: Seq::<char>::empty(),
        common: Seq::<char>::empty(),
        candidates: Seq::<Seq<char>>::empty(),
        next: 0,
        fallback: None,
    }
}

/// While candidates are asked about, the one in turn exists and the fallback
/// is one of those already asked about.
pub open spec fn scan_in_order(s: RootSearchView) -> bool {
    s.stage is Scanning ==> {
        &&& 0 <= s.next < s.candidates.len()
        &&& s.fallback matches Some(p) ==> exists|i: int|
            0 <= i < s.next && #[trigger] s.candidates[i] == p
    }
}

impl View for RootSearch {
    type V = RootSearchView;

    closed spec fn view(&self) -> RootSearchView {
        RootSearchView {
            stage: self.stage,
            target: self.target@,
            common: self.common@,
            candidates: texts(self.candidates@),
            next: self.next as int,
            fallback: match self.fallback {
                Some(p) => Some(p@),
                None => None,
            },
        }
    }
}

/// The directories that follow the marker in the given lines.
fn worktrees_in(lines: &Vec<String>) -> (r: Vec<String>)
    ensures
        texts(r@) == listed_worktrees(texts(lines@)),
{
    let marker = crate::text::to_chars("worktree ");
    let mut out: Vec<String> = Vec::new();
    let mut i: usize = 0;
    assert(texts(lines@).take(0) =~= Seq::<Seq<char>>::empty());
    while i < lines.len()
        invariant
            i <= lines@.len(),
            marker@ == worktree_marker(),
            texts(out@) == listed_worktrees(texts(lines@).take(i as int)),
        decreases lines@.len() - i,
    {
        let line = crate::text::to_chars(lines[i].as_str());
        let ghost before = texts(out@);
        proof {
            let cur = texts(lines@).take(i + 1);
            assert(cur.drop_last() =~= texts(lines@).take(i as int));
            assert(cur.last() == line@);
        }
        if crate::text::chars_occur_at(&line, &marker, 0) {
            let path = crate::text::string_of(&line, marker.len(), line.len());
            assert(path@ =~= line@.skip(marker@.len() as int));
            out.push(path);
            assert(texts(out@) =~= before.push(line@.skip(marker@.len() as int)));
        }
        i += 1;
    }
    assert(texts(lines@).take(lines@.len() as int) =~= texts(lines@));
    out
}

impl RootSearch {
    #[verifier::type_invariant]
    spec fn in_order(&self) -> bool {
        scan_in_order(self@)
    }

    /// A new search, and the query to run first.
    pub fn start() -> (r: (RootSearch, RootQuery))
        ensures
            r.0@ == initial_search(),
            r.1@ == RootQueryView::TopLevel,
    {
        let search = RootSearch {
            stage: Stage::TopLevel,
            target: String::new(),
            common: String::new(),
            candidates: Vec::new(),
            next: 0,
            fallback: None,
        };
        assert(texts(search.candidates@) =~= Seq::<Seq<char>>::empty());
        (search, RootQuery::TopLevel)
    }

    /// Goes on among the candidates from the one at `next`.
    fn scan_on(
        target: String,
        common: String,
        candidates: Vec<String>,
        next: usize,
        fallback: Option<String>,
    ) -> (r: RootProgress)
        requires
            fallback matches Some(p) ==> exists|i: int|
                0 <= i < next && #[trigger] texts(candidates@)[i] == p@,
        ensures
            r@ == scan(
                RootSearchView {
                    stage: Stage::Scanning,
                    target: target@,
                    common: common@,
                    candidates: texts(candidates@),
                    next: next as int,
                    fallback: match fallback {
                        Some(p) => Some(p@),
                        None => None,
                    },
                },
            ),
    {
        if next < candidates.len() {
            let query = RootQuery::CandidateGitDir(candidates[next].clone());
            let search = RootSearch { stage: Stage::Scanning, target, common, candidates, next, fallback };
            RootProgress::Continue(search, query)
        } else {
            match fallback {
                Some(p) => RootProgress::Found(p),
                None => RootProgress::Failed(
                    UpstreamError::other("Failed to find working directory"),
                ),
            }
        }
    }

    /// Takes the outcome of the query that the search asked for, and says how
    /// the search goes on.
    pub fn advance(self, outcome: &CommandOutcome) -> (r: RootProgress)
        ensures
            r@ == advanced(self@, printed(*outcome)),
    {
        proof {
            use_type_invariant(&self);
        }
        let text: String = match outcome {
            CommandOutcome::NotStarted(reason) => {
                if let Stage::Scanning = self.stage {
                    return Self::skip(self);
                }
                return RootProgress::Failed(UpstreamError::Io(reason.clone()));
            },
            CommandOutcome::Finished { code, stdout, stderr } => {
                if !outcome.succeeded() {
                    return match self.stage {
                        Stage::TopLevel => {
                            let RootSearch { stage, target, common, candidates, next, fallback } =
                                self;
                            RootProgress::Continue(
                                RootSearch {
                                    stage: Stage::GitDir,
                                    target,
                                    common,
                                    candidates,
                                    next,
                                    fallback,
                                },
                                RootQuery::GitDir,
                            )
                        },
                        Stage::GitDir => RootProgress::Failed(
                            UpstreamError::other("Not in git repo"),
                        ),
                        Stage::CommonDir => RootProgress::Failed(
                            UpstreamError::other("Not in git repo"),
                        ),
                        Stage::Worktrees => RootProgress::Failed(
                            UpstreamError::other("Failed to get worktrees"),
                        ),
                        Stage::Scanning => Self::skip(self),
                    };
                }
                match crate::text::text_of_bytes(stdout) {
                    Some(t) => t,
                    None => {
                        if let Stage::Scanning = self.stage {
                            return Self::skip(self);
                        }
                        return RootProgress::Failed(
                            UpstreamError::other("Command output is not valid UTF-8"),
                        );
                    },
                }
            },
        };
        assert(printed(*outcome) == Printed::Text(text@));
        let RootSearch { stage, target, common, candidates, next, fallback } = self;
        match stage {
            Stage::TopLevel => RootProgress::Found(crate::text::trim(text.as_str())),
            Stage::GitDir => RootProgress::Continue(
                RootSearch {
                    stage: Stage::CommonDir,
                    target: crate::text::trim_end(text.as_str()),
                    common,
                    candidates,
                    next,
                    fallback,
                },
                RootQuery::CommonDir,
            ),
            Stage::CommonDir => RootProgress::Continue(
                RootSearch {
                    stage: Stage::Worktrees,
                    target,
                    common: crate::text::trim_end(text.as_str()),
                    candidates,
                    next,
                    fallback,
                },
                RootQuery::Worktrees,
            ),
            Stage::Worktrees => {
                let lines = crate::text::lines(text.as_str());
                let found = worktrees_in(&lines);
                Self::scan_on(target, common, found, 0, None)
            },
            Stage::Scanning => {
                let total = candidates.len();
                assert(next < total);
                let candidate = candidates[next].clone();
                let git_dir = crate::text::trim_end(text.as_str());
                let dir = join_path(candidate.as_str(), git_dir.as_str());
                if same_path(dir.as_str(), target.as_str()) {
                    RootProgress::Found(candidate)
                } else if same_path(dir.as_str(), common.as_str()) {
                    assert(texts(candidates@)[next as int] == candidate@);
                    Self::scan_on(target, common, candidates, next + 1, Some(candidate))
                } else {
                    Self::scan_on(target, common, candidates, next + 1, fallback)
                }
            },
        }
    }

    /// Leaves the candidate in turn aside.
    fn skip(search: RootSearch) -> (r: RootProgress)
        requires
            search@.stage is Scanning,
        ensures
            r@ == scan(RootSearchView { next: search@.next + 1, ..search@ }),
    {
        proof {
            use_type_invariant(&search);
        }
        let RootSearch { stage, target, common, candidates, next, fallback } = search;
        let total = candidates.len();
        assert(next < total);
        Self::scan_on(target, common, candidates, next + 1, fallback)
    }
}

/// Whether the metadata directory of the candidate at `i`, as its query
/// printed it, is `wanted`.
pub open spec fn candidate_matches(
    s: RootSearchView,
    answers: Seq<Printed>,
    i: int,
    wanted: Seq<char>,
) -> bool {
    candidate_git_dir(s.candidates[i], answers[i]) matches Some(dir) && paths_equal(dir, wanted)
}

/// How a search among candidates ends when the query of the candidate at
/// each place is answered by what stands at that place in `answers`.
pub open spec fn scanned(s: RootSearchView, answers: Seq<Printed>) -> RootProgressView
    decreases s.candidates.len() - s.next,
{
    if s.stage is Scanning && 0 <= s.next < s.candidates.len() && s.next < answers.len() {
        match advanced(s, answers[s.next]) {
            RootProgressView::Continue(on, query) => if on.candidates.len() - on.next
                < s.candidates.len() - s.next {
                scanned(on, answers)
            } else {
                RootProgressView::Continue(on, query)
            },
            done => done,
        }
    } else {
        scan(s)
    }
}

/// The first working tree whose metadata directory is the one of the
/// current directory is the result of the search, whatever the working
/// trees before it answered.
pub proof fn lemma_first_target_match_wins(s: RootSearchView, answers: Seq<Printed>, k: int)
    requires
        s.stage is Scanning,
        0 <= s.next <= k < s.candidates.len(),
        s.candidates.len() <= answers.len(),
        candidate_matches(s, answers, k, s.target),
        forall|i: int| s.next <= i < k ==> !candidate_matches(s, answers, i, s.target),
    ensures
        scanned(s, answers) == RootProgressView::Found(s.candidates[k]),
    decreases k - s.next,
{
    if s.next < k {
        assert(!candidate_matches(s, answers, s.next, s.target));
        match advanced(s, answers[s.next]) {
            RootProgressView::Continue(on, _) => {
                assert(on.target == s.target && on.candidates == s.candidates);
                assert forall|i: int| on.next <= i < k implies !candidate_matches(
                    on,
                    answers,
                    i,
                    on.target,
                ) by {
                    assert(!candidate_matches(s, answers, i, s.target));
                }
                lemma_first_target_match_wins(on, answers, k);
            },
            _ => {},
        }
    }
}

/// Where no working tree has the metadata directory of the current
/// directory or the shared one, the search fails: the current directory is
/// in no repository.
pub proof fn lemma_unrelated_directory_fails(s: RootSearchView, answers: Seq<Printed>)
    requires
        s.stage is Scanning,
        0 <= s.next <= s.candidates.len(),
        s.candidates.len() <= answers.len(),
        s.fallback is None,
        forall|i: int|
            s.next <= i < s.candidates.len() ==> !candidate_matches(s, answers, i, s.target)
                && !candidate_matches(s, answers, i, s.common),
    ensures
        scanned(s, answers) == RootProgressView::Failed(
            UpstreamErrorView::Other(no_working_directory()),
        ),
    decreases s.candidates.len() - s.next,
{
    if s.next < s.candidates.len() {
        assert(!candidate_matches(s, answers, s.next, s.target));
        assert(!candidate_matches(s, answers, s.next, s.common));
        match advanced(s, answers[s.next]) {
            RootProgressView::Continue(on, _) => {
                assert(on.target == s.target && on.common == s.common && on.candidates
                    == s.candidates);
                assert forall|i: int| on.next <= i < on.candidates.len() implies !candidate_matches(
                    on,
                    answers,
                    i,
                    on.target,
                ) && !candidate_matches(on, answers, i, on.common) by {
                    assert(!candidate_matches(s, answers, i, s.target));
                    assert(!candidate_matches(s, answers, i, s.common));
                }
                lemma_unrelated_directory_fails(on, answers);
            },
            _ => {},
        }
    }
}

/// Where no working tree has the metadata directory of the current
/// directory, the search ends with the last one that has the shared one.
pub proof fn lemma_main_worktree_is_fallback(s: RootSearchView, answers: Seq<Printed>, k: int)
    requires
        s.stage is Scanning,
        0 <= s.next <= k < s.candidates.len(),
        s.candidates.len() <= answers.len(),
        forall|i: int|
            s.next <= i < s.candidates.len() ==> !candidate_matches(s, answers, i, s.target),
        candidate_matches(s, answers, k, s.common),
        forall|i: int| k < i < s.candidates.len() ==> !candidate_matches(s, answers, i, s.common),
    ensures
        scanned(s, answers) == RootProgressView::Found(s.candidates[k]),
    decreases s.candidates.len() - s.next,
{
    assert(!candidate_matches(s, answers, s.next, s.target));
    match advanced(s, answers[s.next]) {
        RootProgressView::Continue(on, _) => {
            assert(on.target == s.target && on.common == s.common && on.candidates
                == s.candidates);
            if s.next < k {
                assert forall|i: int| on.next <= i < on.candidates.len() implies !candidate_matches(
                    on,
                    answers,
                    i,
                    on.target,
                ) by {
                    assert(!candidate_matches(s, answers, i, s.target));
                }
                assert forall|i: int| k < i < on.candidates.len() implies !candidate_matches(
                    on,
                    answers,
                    i,
                    on.common,
                ) by {
                    assert(!candidate_matches(s, answers, i, s.common));
                }
                lemma_main_worktree_is_fallback(on, answers, k);
            } else {
                assert(on.fallback == Some(s.candidates[k]));
                assert forall|i: int| on.next <= i < on.candidates.len() implies !candidate_matches(
                    on,
                    answers,
                    i,
                    on.target,
                ) && !candidate_matches(on, answers, i, on.common) by {
                    assert(!candidate_matches(s, answers, i, s.target));
                    assert(!candidate_matches(s, answers, i, s.common));
                }
                lemma_fallback_stays(on, answers);
            }
        },
        _ => {},
    }
}

/// A fallback stays the result where no later working tree has either
/// metadata directory.
proof fn lemma_fallback_stays(s: RootSearchView, answers: Seq<Printed>)
    requires
        s.stage is Scanning,
        0 <= s.next <= s.candidates.len(),
        s.candidates.len() <= answers.len(),
        s.fallback is Some,
        forall|i: int|
            s.next <= i < s.candidates.len() ==> !candidate_matches(s, answers, i, s.target)
                && !candidate_matches(s, answers, i, s.common),
    ensures
        scanned(s, answers) == RootProgressView::Found(s.fallback->Some_0),
    decreases s.candidates.len() - s.next,
{
    if s.next < s.candidates.len() {
        assert(!candidate_matches(s, answers, s.next, s.target));
        assert(!candidate_matches(s, answers, s.next, s.common));
        match advanced(s, answers[s.next]) {
            RootProgressView::Continue(on, _) => {
                assert(on.target == s.target && on.common == s.common && on.candidates
                    == s.candidates && on.fallback == s.fallback);
                assert forall|i: int| on.next <= i < on.candidates.len() implies !candidate_matches(
                    on,
                    answers,
                    i,
                    on.target,
                ) && !candidate_matches(on, answers, i, on.common) by {
                    assert(!candidate_matches(s, answers, i, s.target));
                    assert(!candidate_matches(s, answers, i, s.common));
                }
                lemma_fallback_stays(on, answers);
            },
            _ => {},
        }
    }
}

/// A search that ends among the candidates ends with one of them.
pub proof fn lemma_found_is_listed(s: RootSearchView, p: Printed)
    requires
        s.stage is Scanning,
        scan_in_order(s),
    ensures
        advanced(s, p) matches RootProgressView::Found(dir) ==> s.candidates.contains(dir),
{
    let candidate = s.candidates[s.next];
    assert(s.candidates.contains(candidate));
}

/// A search that goes on keeps its candidates in order, so that the next
/// answer can be taken.
pub proof fn lemma_advance_keeps_order(s: RootSearchView, p: Printed)
    requires
        scan_in_order(s),
    ensures
        advanced(s, p) matches RootProgressView::Continue(next, _) ==> scan_in_order(next),
{
}

/// The arguments with which `git` prints the URL of the remote `origin`.
pub open spec fn remote_url_arguments() -> Seq<Seq<char>> {
    seq!["ls-remote"@, "--get-url"@, "origin"@]
}

pub open spec fn no_repo_url() -> Seq<char> {
    "Failed to get repo url"@
}

/// What the query for the URL of the remote tells: the URL as it was
/// printed, without the white space around it, and what it says about the
/// remote.
pub open spec fn repo_url_read(p: Printed) -> Result<
    (Seq<char>, RemoteDescriptorView),
    UpstreamErrorView,
> {
    match p {
        Printed::NotStarted(reason) => Err(UpstreamErrorView::Io(reason)),
        Printed::Failure => Err(UpstreamErrorView::Other(no_repo_url())),
        Printed::NotText => Err(UpstreamErrorView::Other(not_text())),
        Printed::Text(t) => match remote_parsed(trim_of(t)) {
            Ok(d) => Ok((trim_of(t), d)),
            Err(e) => Err(e),
        },
    }
}

/// The arguments to hand to `git` for the URL of the remote `origin`.
pub fn repo_url_query() -> (r: Vec<String>)
    ensures
        texts(r@) == remote_url_arguments(),
{
    let mut args: Vec<String> = Vec::new();
    args.push(crate::text::owned("ls-remote"));
    args.push(crate::text::owned("--get-url"));
    args.push(crate::text::owned("origin"));
    assert(texts(args@) =~= remote_url_arguments());
    args
}

/// Get the url of the `origin` remote, from the outcome of the query for it.
pub fn guess_repo_url(outcome: &CommandOutcome) -> (r: Result<
    (String, RemoteDescriptor),
    UpstreamError,
>)
    ensures
        match r {
            Ok((text, remote)) => repo_url_read(printed(*outcome)) == Ok::<
                (Seq<char>, RemoteDescriptorView),
                UpstreamErrorView,
            >((text@, remote@)),
            Err(e) => repo_url_read(printed(*outcome)) == Err::<
                (Seq<char>, RemoteDescriptorView),
                UpstreamErrorView,
            >(e@),
        },
{
    match outcome {
        CommandOutcome::NotStarted(reason) => Err(UpstreamError::Io(reason.clone())),
        CommandOutcome::Finished { code, stdout, stderr } => {
            if !outcome.succeeded() {
                return Err(UpstreamError::other("Failed to get repo url"));
            }
            let text = match crate::text::text_of_bytes(stdout) {
                Some(t) => t,
                None => {
                    return Err(UpstreamError::other("Command output is not valid UTF-8"));
                },
            };
            let url = crate::text::trim(text.as_str());
            match RemoteDescriptor::parse(url.as_str()) {
                Ok(remote) => Ok((url, remote)),
                Err(e) => Err(e),
            }
        },
    }
}


} // verus!
