//! What a remote URL says about where a repository is hosted.

use vstd::prelude::*;
use crate::issue_tracker::{UpstreamError, UpstreamErrorView};
use crate::text::{same_text, to_chars};

verus! {

/// The text of an optional string.
pub open spec fn opt_text(o: Option<String>) -> Option<Seq<char>> {
    match o {
        Some(s) => Some(s@),
        None => None,
    }
}

/// A remote URL brought to the form of a URL with a scheme: its scheme, its
/// host if it has one, and its path.
pub struct NormalizedUrl {
    pub scheme: String,
    pub host: Option<String>,
    pub path: String,
}

pub struct NormalizedUrlView {
    pub scheme: Seq<char>,
    pub host: Option<Seq<char>>,
    pub path: Seq<char>,
}

impl View for NormalizedUrl {
    type V = NormalizedUrlView;

    open spec fn view(&self) -> NormalizedUrlView {
        NormalizedUrlView { scheme: self.scheme@, host: opt_text(self.host), path: self.path@ }
    }
}

/// Where a repository is hosted, as its remote URL tells it.
#[derive(Debug)]
pub struct RemoteDescriptor {
    /// The host name or address of the service.
    pub host: Option<String>,
    /// The owner, account or project that the repository belongs to.
    pub owner: Option<String>,
    /// The organization above the owner, where the service has one.
    pub organization: Option<String>,
    /// The name of the repository.
    pub name: String,
    /// Owner and name, as the service writes them together.
    pub fullname: String,
}

pub struct RemoteDescriptorView {
    pub host: Option<Seq<char>>,
    pub owner: Option<Seq<char>>,
    pub organization: Option<Seq<char>>,
    pub name: Seq<char>,
    pub fullname: Seq<char>,
}

impl View for RemoteDescriptor {
    type V = RemoteDescriptorView;

    open spec fn view(&self) -> RemoteDescriptorView {
        RemoteDescriptorView {
            host: opt_text(self.host),
            owner: opt_text(self.owner),
            organization: opt_text(self.organization),
            name: self.name@,
            fullname: self.fullname@,
        }
    }
}

impl Clone for RemoteDescriptor {
    fn clone(&self) -> (r: Self)
        ensures
            r@ == self@,
    {
        RemoteDescriptor {
            host: self.host.clone(),
            owner: self.owner.clone(),
            organization: self.organization.clone(),
            name: self.name.clone(),
            fullname: self.fullname.clone(),
        }
    }
}

/// What `git_url_parse::normalize_url` makes of a URL: none where it fails.
pub uninterp spec fn normalized_url(url: Seq<char>) -> Option<NormalizedUrlView>;

/// What `git_url_parse::GitUrl::parse` makes of a URL on which it returns:
/// the parts that this crate reads, or the text of its error.
pub uninterp spec fn parsed_git_url(url: Seq<char>) -> Result<RemoteDescriptorView, Seq<char>>;

/// Brings a remote URL to the form of a URL with a scheme.
///
/// Trusted: calls `git_url_parse::normalize_url` and copies scheme, host and
/// path out of the `Url` that it returns. Nothing is claimed of the result
/// but that it is what that function gives for this text.
#[verifier::external_body]
fn normalize(url: &str) -> (r: Option<NormalizedUrl>)
    ensures
        match r {
            Some(n) => normalized_url(url@) == Some(n@),
            None => normalized_url(url@) is None,
        },
{
    match git_url_parse::normalize_url(url) {
        Ok(u) => Some(
            NormalizedUrl {
                scheme: u.scheme().to_string(),
                host: u.host_str().map(|h| h.to_string()),
                path: u.path().to_string(),
            },
        ),
        Err(_) => None,
    }
}

/// Reads a remote URL.
///
/// Trusted: calls `git_url_parse::GitUrl::parse` and copies host, owner,
/// organization, name and full name out of what it returns, or the text of
/// its error. `parse` indexes into the segments of the normalized path and
/// panics where there are too few; `parse_defined` leaves those URLs out.
#[verifier::external_body]
fn parse_git_url(url: &str) -> (r: Result<RemoteDescriptor, String>)
    requires
        parse_defined(normalized_url(url@)),
    ensures
        match r {
            Ok(d) => parsed_git_url(url@) == Ok::<RemoteDescriptorView, Seq<char>>(d@),
            Err(m) => parsed_git_url(url@) == Err::<RemoteDescriptorView, Seq<char>>(m@),
        },
{
    match git_url_parse::GitUrl::parse(url) {
        Ok(u) => Ok(
            RemoteDescriptor {
                host: u.host,
                owner: u.owner,
                organization: u.organization,
                name: u.name,
                fullname: u.fullname,
            },
        ),
        Err(e) => Err(e.to_string()),
    }
}

/// How often `c` occurs in `s`.
pub open spec fn count_of(s: Seq<char>, c: char) -> nat
    decreases s.len(),
{
    if s.len() == 0 {
        0
    } else {
        count_of(s.drop_last(), c) + if s.last() == c {
            1nat
        } else {
            0nat
        }
    }
}

/// Into how many segments the slashes cut a path, an empty segment at the
/// end not counted.
pub open spec fn segment_count(path: Seq<char>) -> nat {
    count_of(path, '/') + if path.len() == 0 || path.last() == '/' {
        0nat
    } else {
        1nat
    }
}

/// The hosts whose paths begin with an organization.
pub open spec fn is_azure_host(host: Seq<char>) -> bool {
    host == "dev.azure.com"@ || host == "ssh.dev.azure.com"@
}

/// The URLs that can be read: those whose normalized path has the segments
/// that reading it reaches for. With the scheme `ssh` the path is read
/// without its first character and must not be empty then; on a host whose
/// paths begin with an organization it must have three segments with `ssh`
/// and four with `https`.
pub open spec fn parse_defined(n: Option<NormalizedUrlView>) -> bool {
    match n {
        None => true,
        Some(u) => {
            let ssh = u.scheme == "ssh"@;
            let read = if ssh {
                u.path.skip(1)
            } else {
                u.path
            };
            ||| u.path.len() == 0
            ||| {
                &&& read.len() > 0
                &&& (u.host matches Some(h) && is_azure_host(h)) ==> {
                    &&& ssh ==> segment_count(read) >= 3
                    &&& u.scheme == "https"@ ==> segment_count(read) >= 4
                }
            }
        },
    }
}

/// The text of the error for a URL that cannot be read.
pub open spec fn unreadable_url() -> Seq<char> {
    "Git Url not in expected format"@
}

/// What reading a remote URL gives: the descriptor, or an error of the kind
/// `Other` with the reason.
pub open spec fn remote_parsed(url: Seq<char>) -> Result<RemoteDescriptorView, UpstreamErrorView> {
    if !parse_defined(normalized_url(url)) {
        Err(UpstreamErrorView::Other(unreadable_url()))
    } else {
        match parsed_git_url(url) {
            Ok(d) => Ok(d),
            Err(m) => Err(UpstreamErrorView::Other(m)),
        }
    }
}

proof fn lemma_count_bounded(s: Seq<char>, c: char)
    ensures
        count_of(s, c) <= s.len(),
    decreases s.len(),
{
    if s.len() > 0 {
        lemma_count_bounded(s.drop_last(), c);
    }
}

/// Into how many segments the slashes cut `path[from..]`.
fn count_segments(path: &Vec<char>, from: usize) -> (r: usize)
    requires
        from <= path@.len(),
    ensures
        r == segment_count(path@.skip(from as int)),
{
    let ghost rest = path@.skip(from as int);
    let mut count: usize = 0;
    let mut i: usize = from;
    assert(rest.take(0) =~= Seq::<char>::empty());
    while i < path.len()
        invariant
            from <= i <= path@.len(),
            rest == path@.skip(from as int),
            count == count_of(rest.take(i - from), '/'),
            count <= i - from,
        decreases path@.len() - i,
    {
        proof {
            let cur = rest.take(i - from + 1);
            assert(cur.drop_last() =~= rest.take(i - from));
            assert(cur.last() == path@[i as int]);
        }
        if path[i] == '/' {
            count += 1;
        }
        i += 1;
    }
    assert(rest.take(path@.len() - from) =~= rest);
    if path.len() > from && path[path.len() - 1] != '/' {
        assert(rest.last() == path@[path@.len() - 1]);
        proof {
            lemma_count_bounded(rest.drop_last(), '/');
        }
        count + 1
    } else {
        if path.len() > from {
            assert(rest.last() == path@[path@.len() - 1]);
        }
        count
    }
}

/// Whether a normalized URL can be read.
fn can_parse(n: &Option<NormalizedUrl>) -> (r: bool)
    ensures
        r == parse_defined(
            match n {
                Some(u) => Some(u@),
                None => None,
            },
        ),
{
    match n {
        None => true,
        Some(u) => {
            let path = to_chars(u.path.as_str());
            if path.len() == 0 {
                return true;
            }
            let ssh = same_text(u.scheme.as_str(), "ssh");
            let https = same_text(u.scheme.as_str(), "https");
            let from: usize = if ssh {
                1
            } else {
                0
            };
            if path.len() <= from {
                assert(path@.skip(from as int).len() == 0);
                return false;
            }
            let azure = match &u.host {
                Some(h) => same_text(h.as_str(), "dev.azure.com") || same_text(
                    h.as_str(),
                    "ssh.dev.azure.com",
                ),
                None => false,
            };
            if !azure {
                return true;
            }
            let segments = count_segments(&path, from);
            assert(path@.skip(0) =~= path@);
            if ssh {
                proof {
                    reveal_strlit("ssh");
                    reveal_strlit("https");
                    assert("ssh"@.len() == 3);
                    assert("https"@.len() == 5);
                }
                segments >= 3
            } else if https {
                segments >= 4
            } else {
                true
            }
        },
    }
}

impl RemoteDescriptor {
    /// Reads a remote URL.
    pub fn parse(url: &str) -> (r: Result<RemoteDescriptor, UpstreamError>)
        ensures
            match r {
                Ok(d) => remote_parsed(url@) == Ok::<RemoteDescriptorView, UpstreamErrorView>(d@),
                Err(e) => remote_parsed(url@) == Err::<RemoteDescriptorView, UpstreamErrorView>(
                    e@,
                ),
            },
    {
        let n = normalize(url);
        if !can_parse(&n) {
            return Err(UpstreamError::other("Git Url not in expected format"));
        }
        match parse_git_url(url) {
            Ok(d) => Ok(d),
            Err(m) => Err(UpstreamError::Other(m)),
        }
    }
}

} // verus!
