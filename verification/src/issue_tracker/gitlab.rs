//! GitLab: the issues of a project.
//!
//! The crate says which issues to ask for and reads the answer; the client
//! that asks, and that is built once and shared, is the caller's.

use vstd::prelude::*;
use secure_string::SecureString;
use crate::credentials::secret_text;
use crate::issue_tracker::builder::{opt_secret, TrackerConfig};
use crate::issue_tracker::{ticket_views, Ticket, TicketView, UpstreamError, UpstreamErrorView};

verus! {

/// The adapter for GitLab.
pub struct Gitlab {
    host: String,
    token: SecureString,
    project: String,
}

pub struct GitlabView {
    pub host: Seq<char>,
    pub token: Seq<char>,
    pub project: Seq<char>,
}

impl View for Gitlab {
    type V = GitlabView;

    closed spec fn view(&self) -> GitlabView {
        GitlabView { host: self.host@, token: secret_text(&self.token), project: self.project@ }
    }
}

/// Which issues of a project are asked for.
#[derive(Debug)]
pub enum IssueFilter {
    /// Those that are open.
    Opened,
    /// Those with one of these numbers.
    Numbers(Vec<u64>),
}

/// A question to GitLab about the issues of a project.
#[derive(Debug)]
pub struct GitlabQuery {
    pub project: String,
    pub filter: IssueFilter,
}

pub enum IssueFilterView {
    Opened,
    Numbers(Seq<u64>),
}

pub struct GitlabQueryView {
    pub project: Seq<char>,
    pub filter: IssueFilterView,
}

impl View for GitlabQuery {
    type V = GitlabQueryView;

    open spec fn view(&self) -> GitlabQueryView {
        GitlabQueryView {
            project: self.project@,
            filter: match self.filter {
                IssueFilter::Opened => IssueFilterView::Opened,
                IssueFilter::Numbers(ids) => IssueFilterView::Numbers(ids@),
            },
        }
    }
}

/// An issue as GitLab describes it.
#[derive(Debug)]
pub struct GitlabIssue {
    pub iid: u64,
    pub title: String,
    pub description: String,
}

/// The ways in which the interface of GitLab fails.
#[derive(Debug)]
pub enum ApiFailure {
    /// The client could not set the credential.
    ClientAuth,
    /// GitLab refused the credential.
    Auth,
    /// The client could not reach GitLab; the reason.
    ClientCommunication(String),
    /// Anything else, in the interface's words.
    Other(String),
}

/// The ways in which asking GitLab fails.
#[derive(Debug)]
pub enum GitlabFailure {
    /// The credential could not be set.
    Auth,
    /// GitLab could not be reached; the reason.
    Communication(String),
    /// The interface failed.
    Api(ApiFailure),
    /// Anything else, in the client's words.
    Other(String),
}

/// The error that a failure of the interface is reported as.
pub open spec fn api_error(failure: ApiFailure) -> UpstreamErrorView {
    match failure {
        ApiFailure::ClientAuth => UpstreamErrorView::Authentication,
        ApiFailure::Auth => UpstreamErrorView::Authentication,
        ApiFailure::ClientCommunication(reason) => UpstreamErrorView::Io(reason@),
        ApiFailure::Other(words) => UpstreamErrorView::Other(words@),
    }
}

/// The error that a failure of asking GitLab is reported as.
pub open spec fn gitlab_error(failure: GitlabFailure) -> UpstreamErrorView {
    match failure {
        GitlabFailure::Auth => UpstreamErrorView::Authentication,
        GitlabFailure::Communication(reason) => UpstreamErrorView::Io(reason@),
        GitlabFailure::Api(source) => api_error(source),
        GitlabFailure::Other(words) => UpstreamErrorView::Other(words@),
    }
}

/// The numbers of issues, in order.
pub open spec fn issue_ids(issues: Seq<GitlabIssue>) -> Seq<u64> {
    Seq::new(issues.len(), |i: int| issues[i].iid)
}

/// The tickets that issues stand for, in order.
pub open spec fn issue_tickets(issues: Seq<GitlabIssue>) -> Seq<TicketView> {
    Seq::new(
        issues.len(),
        |i: int|
            TicketView {
                id: issues[i].iid,
                title: issues[i].title@,
                text: issues[i].description@,
            },
    )
}

/// The question for the open issues of the project.
pub open spec fn gitlab_list_query(v: GitlabView) -> GitlabQueryView {
    GitlabQueryView { project: v.project, filter: IssueFilterView::Opened }
}

/// The question for the issues of the project with the numbers `ids`.
pub open spec fn gitlab_details_query(v: GitlabView, ids: Seq<u64>) -> GitlabQueryView {
    GitlabQueryView { project: v.project, filter: IssueFilterView::Numbers(ids) }
}

/// The numbers in an answer of GitLab.
pub open spec fn gitlab_list_read(reply: Result<Vec<GitlabIssue>, GitlabFailure>) -> Result<
    Seq<u64>,
    UpstreamErrorView,
> {
    match reply {
        Ok(issues) => Ok(issue_ids(issues@)),
        Err(failure) => Err(gitlab_error(failure)),
    }
}

/// The tickets in an answer of GitLab.
pub open spec fn gitlab_details_read(reply: Result<Vec<GitlabIssue>, GitlabFailure>) -> Result<
    Seq<TicketView>,
    UpstreamErrorView,
> {
    match reply {
        Ok(issues) => Ok(issue_tickets(issues@)),
        Err(failure) => Err(gitlab_error(failure)),
    }
}

impl ApiFailure {
    /// The error that the failure is reported as.
    pub fn into_error(&self) -> (r: UpstreamError)
        ensures
            r@ == api_error(*self),
    {
        match self {
            ApiFailure::ClientAuth => UpstreamError::Authentication,
            ApiFailure::Auth => UpstreamError::Authentication,
            ApiFailure::ClientCommunication(reason) => UpstreamError::Io(reason.clone()),
            ApiFailure::Other(words) => UpstreamError::Other(words.clone()),
        }
    }
}

impl GitlabFailure {
    /// The error that the failure is reported as.
    pub fn into_error(&self) -> (r: UpstreamError)
        ensures
            r@ == gitlab_error(*self),
    {
        match self {
            GitlabFailure::Auth => UpstreamError::Authentication,
            GitlabFailure::Communication(reason) => UpstreamError::Io(reason.clone()),
            GitlabFailure::Api(source) => source.into_error(),
            GitlabFailure::Other(words) => UpstreamError::Other(words.clone()),
        }
    }
}

impl Gitlab {
    pub fn new(token: SecureString, host: String, project: String) -> (r: Self)
        ensures
            r@ == (GitlabView { host: host@, token: secret_text(&token), project: project@ }),
    {
        Self { host, token, project }
    }

    /// An adapter for the project that the remote names. It needs a
    /// credential and a host; the project is the full name of the repository.
    pub fn from_config(config: TrackerConfig) -> (r: Option<Self>)
        ensures
            match r {
                Some(g) => {
                    &&& opt_secret(config.secret) == Some(g@.token)
                    &&& config.url@.host == Some(g@.host)
                    &&& g@.project == config.url@.fullname
                },
                None => config.secret is None || config.url.host is None,
            },
    {
        let TrackerConfig { url, secret } = config;
        let token = match secret {
            Some(s) => s,
            None => {
                return None;
            },
        };
        let host = match url.host {
            Some(h) => h,
            None => {
                return None;
            },
        };
        Some(Self::new(token, host, url.fullname))
    }

    /// The host to connect to.
    pub fn host(&self) -> (r: &str)
        ensures
            r@ == self@.host,
    {
        self.host.as_str()
    }

    /// The credential to connect with.
    pub fn credential(&self) -> (r: &SecureString)
        ensures
            secret_text(r) == self@.token,
    {
        &self.token
    }

    /// The question for the open issues of the project.
    pub fn list_query(&self) -> (r: GitlabQuery)
        ensures
            r@ == gitlab_list_query(self@),
    {
        GitlabQuery { project: self.project.clone(), filter: IssueFilter::Opened }
    }

    /// The question for the issues of the project with the given numbers.
    pub fn details_query(&self, ids: &[u64]) -> (r: GitlabQuery)
        ensures
            r@ == gitlab_details_query(self@, ids@),
    {
        GitlabQuery {
            project: self.project.clone(),
            filter: IssueFilter::Numbers(vstd::slice::slice_to_vec(ids)),
        }
    }

    /// The numbers of the issues in the answer to `list_query`.
    pub fn list_ticket_numbers(&self, reply: &Result<Vec<GitlabIssue>, GitlabFailure>) -> (r:
        Result<Vec<u64>, UpstreamError>)
        ensures
            match r {
                Ok(ids) => gitlab_list_read(*reply) == Ok::<Seq<u64>, UpstreamErrorView>(ids@),
                Err(e) => gitlab_list_read(*reply) == Err::<Seq<u64>, UpstreamErrorView>(e@),
            },
    {
        match reply {
            Err(failure) => Err(failure.into_error()),
            Ok(issues) => {
                let mut ids: Vec<u64> = Vec::new();
                let mut i: usize = 0;
                while i < issues.len()
                    invariant
                        i <= issues@.len(),
                        ids@ == issue_ids(issues@).take(i as int),
                    decreases issues@.len() - i,
                {
                    ids.push(issues[i].iid);
                    assert(ids@ =~= issue_ids(issues@).take(i + 1));
                    i += 1;
                }
                assert(ids@ =~= issue_ids(issues@));
                Ok(ids)
            },
        }
    }

    /// The tickets in the answer to `details_query`.
    pub fn get_ticket_details(&self, reply: &Result<Vec<GitlabIssue>, GitlabFailure>) -> (r: Result<
        Vec<Ticket>,
        UpstreamError,
    >)
        ensures
            match r {
                Ok(tickets) => gitlab_details_read(*reply) == Ok::<
                    Seq<TicketView>,
                    UpstreamErrorView,
                >(ticket_views(tickets@)),
                Err(e) => gitlab_details_read(*reply) == Err::<Seq<TicketView>, UpstreamErrorView>(
                    e@,
                ),
            },
    {
        match reply {
            Err(failure) => Err(failure.into_error()),
            Ok(issues) => {
                let mut tickets: Vec<Ticket> = Vec::new();
                let mut i: usize = 0;
                while i < issues.len()
                    invariant
                        i <= issues@.len(),
                        ticket_views(tickets@) == issue_tickets(issues@).take(i as int),
                    decreases issues@.len() - i,
                {
                    let issue = &issues[i];
                    let ticket = Ticket::new(
                        issue.iid,
                        issue.title.clone(),
                        issue.description.clone(),
                    );
                    let ghost before = ticket_views(tickets@);
                    tickets.push(ticket);
                    assert(ticket_views(tickets@) =~= before.push(ticket@));
                    assert(ticket_views(tickets@) =~= issue_tickets(issues@).take(i + 1));
                    i += 1;
                }
                assert(ticket_views(tickets@) =~= issue_tickets(issues@));
                Ok(tickets)
            },
        }
    }
}

} // verus!
