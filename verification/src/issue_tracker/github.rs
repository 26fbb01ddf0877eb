//! GitHub: issues through its REST interface, one request per issue.

use vstd::prelude::*;
use secure_string::SecureString;
use crate::credentials::secret_text;
use crate::issue_tracker::builder::{opt_secret, TrackerConfig};
use crate::issue_tracker::http::{
    pair, pairs, read_json, reply_json, Authorization, HttpReply, HttpRequest, HttpRequestView,
    Method, Payload, PayloadView, UNAUTHORIZED,
};
use crate::issue_tracker::{ticket_views, Ticket, TicketView, UpstreamError, UpstreamErrorView};
use crate::json::{items, member, number, string, Json};
use crate::remote::opt_text;
use crate::text::{decimal_of, owned, push_decimal, text_of_bytes, utf8_text};

verus! {

/// The adapter for GitHub.
pub struct Github {
    /// The name of the user that the credential belongs to, once it is known.
    username: Option<String>,
    token: Option<SecureString>,
    owner: String,
    repo: String,
}

pub struct GithubView {
    pub username: Option<Seq<char>>,
    pub token: Option<Seq<char>>,
    pub owner: Seq<char>,
    pub repo: Seq<char>,
}

impl View for Github {
    type V = GithubView;

    closed spec fn view(&self) -> GithubView {
        GithubView {
            username: opt_text(self.username),
            token: opt_secret(self.token),
            owner: self.owner@,
            repo: self.repo@,
        }
    }
}

/// The headers that go with every request.
pub open spec fn github_headers() -> Seq<(Seq<char>, Seq<char>)> {
    seq![
        ("User-Agent"@, "commit-lsp"@),
        ("Accept"@, "application/vnd.github.raw+json"@),
        ("X-GitHub-Api-Version"@, "2022-11-28"@),
    ]
}

/// The address that tells whom a credential belongs to.
pub open spec fn user_url() -> Seq<char> {
    "https://api.github.com/user"@
}

/// The address of the issues of a repository.
pub open spec fn issues_url(owner: Seq<char>, repo: Seq<char>) -> Seq<char> {
    "https://api.github.com/repos/"@ + owner + "/"@ + repo + "/issues"@
}

/// The address that lists the issues assigned to a user.
pub open spec fn assigned_url(owner: Seq<char>, repo: Seq<char>, assignee: Seq<char>) -> Seq<char> {
    issues_url(owner, repo) + "?assignee="@ + assignee
}

/// The address of one issue.
pub open spec fn issue_url(owner: Seq<char>, repo: Seq<char>, id: u64) -> Seq<char> {
    issues_url(owner, repo) + "/"@ + decimal_of(id as nat)
}

/// How the credential goes with a request: as a bearer token, if there is one.
pub open spec fn github_authorization(v: GithubView) -> Authorization {
    if v.token is Some {
        Authorization::Bearer
    } else {
        Authorization::Anonymous
    }
}

/// The user whose issues are listed, as far as it is known without asking:
/// the owner of the repository where there is no credential, and otherwise
/// the user that was remembered.
pub open spec fn known_assignee(v: GithubView) -> Option<Seq<char>> {
    if v.token is None {
        Some(v.owner)
    } else {
        v.username
    }
}

/// A request that only reads: the headers that go with every request, and
/// neither query nor body.
pub open spec fn github_get(url: Seq<char>, authorization: Authorization) -> HttpRequestView {
    HttpRequestView {
        method: Method::Get,
        url,
        query: Seq::<(Seq<char>, Seq<char>)>::empty(),
        headers: github_headers(),
        authorization,
        payload: PayloadView::Empty,
    }
}

/// The request that tells whom the credential belongs to.
pub open spec fn github_user_request() -> HttpRequestView {
    github_get(user_url(), Authorization::Bearer)
}

/// The request that lists the issues assigned to `assignee`.
pub open spec fn github_list_request(v: GithubView, assignee: Seq<char>) -> HttpRequestView {
    github_get(assigned_url(v.owner, v.repo, assignee), github_authorization(v))
}

/// The request for the issue `id`.
pub open spec fn github_details_request(v: GithubView, id: u64) -> HttpRequestView {
    github_get(issue_url(v.owner, v.repo, id), github_authorization(v))
}

/// The requests for the issues `ids`, one for each in order.
pub open spec fn github_details_requests(v: GithubView, ids: Seq<u64>) -> Seq<HttpRequestView> {
    Seq::new(ids.len(), |i: int| github_details_request(v, ids[i]))
}

pub open spec fn unexpected_issue() -> Seq<char> {
    "Unexpected response format"@
}

pub open spec fn issue_without_title() -> Seq<char> {
    "Issue is missing a title"@
}

pub open spec fn user_without_login() -> Seq<char> {
    "User is missing a login"@
}

/// The body of an issue: empty where there is none, and none where the
/// member `body` is something other than a string.
pub open spec fn issue_body(item: Json) -> Option<Seq<char>> {
    match member(item, "body"@) {
        None => Some(Seq::<char>::empty()),
        Some(Json::Null) => Some(Seq::<char>::empty()),
        Some(Json::Text(s)) => Some(s@),
        Some(_) => None,
    }
}

/// The title of an issue.
pub open spec fn issue_title(item: Json) -> Option<Seq<char>> {
    match member(item, "title"@) {
        Some(v) => string(v),
        None => None,
    }
}

/// The number of an issue.
pub open spec fn issue_number(item: Json) -> Option<u64> {
    match member(item, "number"@) {
        Some(v) => number(v),
        None => None,
    }
}

/// Number, title and body of an issue. An issue without a title is an error
/// of its own; a number or a body of the wrong shape is an unexpected format.
pub open spec fn issue_entry(item: Json) -> Result<
    (u64, Seq<char>, Seq<char>),
    UpstreamErrorView,
> {
    match issue_title(item) {
        None => Err(UpstreamErrorView::Other(issue_without_title())),
        Some(title) => match (issue_number(item), issue_body(item)) {
            (Some(n), Some(body)) => Ok((n, title, body)),
            _ => Err(UpstreamErrorView::Other(unexpected_issue())),
        },
    }
}

/// The numbers of issues, or the error of the first that is malformed.
pub open spec fn issue_numbers(list: Seq<Json>) -> Result<Seq<u64>, UpstreamErrorView>
    decreases list.len(),
{
    if list.len() == 0 {
        Ok(Seq::<u64>::empty())
    } else {
        match issue_numbers(list.drop_last()) {
            Err(e) => Err(e),
            Ok(before) => match issue_entry(list.last()) {
                Ok(entry) => Ok(before.push(entry.0)),
                Err(e) => Err(e),
            },
        }
    }
}

/// Whether a status says that a request succeeded.
pub open spec fn is_success_status(status: u16) -> bool {
    200 <= status <= 299
}

/// What a reply to the listing request lists. A refused credential is an
/// authentication error; any other status that is no success is an error of
/// the kind `Other` with the body as its text.
pub open spec fn github_list_read(reply: HttpReply) -> Result<Seq<u64>, UpstreamErrorView> {
    match reply {
        HttpReply::Response { status, body } if status != UNAUTHORIZED && !is_success_status(
            status,
        ) => Err(
            UpstreamErrorView::Other(
                match utf8_text(body@) {
                    Some(t) => t,
                    None => unexpected_issue(),
                },
            ),
        ),
        _ => match reply_json(reply) {
            Err(e) => Err(e),
            Ok(j) => match items(j) {
                None => Err(UpstreamErrorView::Other(unexpected_issue())),
                Some(list) => issue_numbers(list),
            },
        },
    }
}

/// The ticket in a reply to the request for the issue `id`.
pub open spec fn github_ticket_read(id: u64, reply: HttpReply) -> Result<
    TicketView,
    UpstreamErrorView,
> {
    match reply_json(reply) {
        Err(e) => Err(e),
        Ok(j) => match issue_entry(j) {
            Err(e) => Err(e),
            Ok(entry) => Ok(TicketView { id, title: entry.1, text: entry.2 }),
        },
    }
}

/// The tickets in the first `n` replies, each read as the reply to the
/// request for the issue at its place in `ids`; or the first error.
pub open spec fn github_details_upto(ids: Seq<u64>, replies: Seq<HttpReply>, n: int) -> Result<
    Seq<TicketView>,
    UpstreamErrorView,
>
    decreases n,
{
    if n <= 0 {
        Ok(Seq::<TicketView>::empty())
    } else {
        match github_details_upto(ids, replies, n - 1) {
            Err(e) => Err(e),
            Ok(before) => match github_ticket_read(ids[n - 1], replies[n - 1]) {
                Ok(t) => Ok(before.push(t)),
                Err(e) => Err(e),
            },
        }
    }
}

/// The tickets in the replies to the requests for the issues `ids`, one
/// reply for each in order, as far as both reach; or the first error.
pub open spec fn github_details_read(ids: Seq<u64>, replies: Seq<HttpReply>) -> Result<
    Seq<TicketView>,
    UpstreamErrorView,
> {
    github_details_upto(
        ids,
        replies,
        if ids.len() <= replies.len() {
            ids.len() as int
        } else {
            replies.len() as int
        },
    )
}

/// The name of the user in a reply to the request for the user.
pub open spec fn github_user_read(reply: HttpReply) -> Result<Seq<char>, UpstreamErrorView> {
    match reply_json(reply) {
        Err(e) => Err(e),
        Ok(j) => match member(j, "login"@) {
            Some(Json::Text(s)) => Ok(s@),
            _ => Err(UpstreamErrorView::Other(user_without_login())),
        },
    }
}

fn standard_headers() -> (r: Vec<(String, String)>)
    ensures
        pairs(r@) == github_headers(),
{
    let mut headers: Vec<(String, String)> = Vec::new();
    headers.push(pair("User-Agent", "commit-lsp"));
    headers.push(pair("Accept", "application/vnd.github.raw+json"));
    headers.push(pair("X-GitHub-Api-Version", "2022-11-28"));
    assert(pairs(headers@) =~= github_headers());
    headers
}

fn read_issue(item: &Json) -> (r: Result<(u64, String, String), UpstreamError>)
    ensures
        match r {
            Ok(entry) => issue_entry(*item) == Ok::<(u64, Seq<char>, Seq<char>), UpstreamErrorView>(
                (entry.0, entry.1@, entry.2@),
            ),
            Err(e) => issue_entry(*item) == Err::<(u64, Seq<char>, Seq<char>), UpstreamErrorView>(
                e@,
            ),
        },
{
    let title = match item.get("title") {
        Some(v) => match v.as_text() {
            Some(t) => owned(t),
            None => {
                return Err(UpstreamError::other("Issue is missing a title"));
            },
        },
        None => {
            return Err(UpstreamError::other("Issue is missing a title"));
        },
    };
    let number = match item.get("number") {
        Some(v) => match v.as_u64() {
            Some(n) => n,
            None => {
                return Err(UpstreamError::other("Unexpected response format"));
            },
        },
        None => {
            return Err(UpstreamError::other("Unexpected response format"));
        },
    };
    let body = match item.get("body") {
        None => String::new(),
        Some(v) => match v {
            Json::Null => String::new(),
            Json::Text(s) => s.clone(),
            _ => {
                return Err(UpstreamError::other("Unexpected response format"));
            },
        },
    };
    Ok((number, title, body))
}

impl Github {
    /// An adapter for the repository that the remote names. It needs an
    /// owner; a credential is used if there is one.
    pub fn new(config: TrackerConfig) -> (r: Option<Self>)
        ensures
            match r {
                Some(g) => {
                    &&& config.url@.owner == Some(g@.owner)
                    &&& g@.repo == config.url@.name
                    &&& g@.token == opt_secret(config.secret)
                    &&& g@.username is None
                },
                None => config.url.owner is None,
            },
    {
        let TrackerConfig { url, secret } = config;
        let owner = match url.owner {
            Some(o) => o,
            None => {
                return None;
            },
        };
        Some(Self { username: None, token: secret, owner, repo: url.name })
    }

    /// The credential to send with a request, if there is one.
    pub fn credential(&self) -> (r: Option<&SecureString>)
        ensures
            match r {
                Some(s) => self@.token == Some(secret_text(s)),
                None => self@.token is None,
            },
    {
        self.token.as_ref()
    }

    /// The user whose issues are listed, if it is known without asking.
    pub fn assignee(&self) -> (r: Option<String>)
        ensures
            opt_text(r) == known_assignee(self@),
    {
        match &self.token {
            None => Some(self.owner.clone()),
            Some(_) => self.username.clone(),
        }
    }

    /// The request that tells whom the credential belongs to.
    pub fn username_request(&self) -> (r: HttpRequest)
        ensures
            r@ == github_user_request(),
    {
        let query: Vec<(String, String)> = Vec::new();
        assert(pairs(query@) =~= Seq::<(Seq<char>, Seq<char>)>::empty());
        HttpRequest {
            method: Method::Get,
            url: owned("https://api.github.com/user"),
            query,
            headers: standard_headers(),
            authorization: Authorization::Bearer,
            payload: Payload::Empty,
        }
    }

    /// The name of the user in the reply to `username_request`.
    pub fn read_username(&self, reply: &HttpReply) -> (r: Result<String, UpstreamError>)
        ensures
            match r {
                Ok(name) => github_user_read(*reply) == Ok::<Seq<char>, UpstreamErrorView>(name@),
                Err(e) => github_user_read(*reply) == Err::<Seq<char>, UpstreamErrorView>(e@),
            },
    {
        let json = match read_json(reply) {
            Ok(j) => j,
            Err(e) => {
                return Err(e);
            },
        };
        match json.get("login") {
            Some(v) => match v {
                Json::Text(s) => Ok(s.clone()),
                _ => Err(UpstreamError::other("User is missing a login")),
            },
            None => Err(UpstreamError::other("User is missing a login")),
        }
    }

    /// Remembers the name of the user, unless one is remembered already, and
    /// hands back the name that is remembered from now on.
    pub fn get_username(&mut self, name: String) -> (r: String)
        ensures
            r@ == match old(self)@.username {
                Some(known) => known,
                None => name@,
            },
            final(self)@ == (GithubView { username: Some(r@), ..old(self)@ }),
    {
        match &self.username {
            Some(known) => known.clone(),
            None => {
                self.username = Some(name.clone());
                name
            },
        }
    }

    fn issues_address(&self) -> (r: String)
        ensures
            r@ == issues_url(self@.owner, self@.repo),
    {
        let mut url = owned("https://api.github.com/repos/");
        url.append(self.owner.as_str());
        url.append("/");
        url.append(self.repo.as_str());
        url.append("/issues");
        url
    }

    fn authorization(&self) -> (r: Authorization)
        ensures
            r == github_authorization(self@),
    {
        match &self.token {
            Some(_) => Authorization::Bearer,
            None => Authorization::Anonymous,
        }
    }

    /// The request that lists the issues assigned to `assignee`.
    pub fn list_request(&self, assignee: &str) -> (r: HttpRequest)
        ensures
            r@ == github_list_request(self@, assignee@),
    {
        let mut url = self.issues_address();
        url.append("?assignee=");
        url.append(assignee);
        let query: Vec<(String, String)> = Vec::new();
        assert(pairs(query@) =~= Seq::<(Seq<char>, Seq<char>)>::empty());
        HttpRequest {
            method: Method::Get,
            url,
            query,
            headers: standard_headers(),
            authorization: self.authorization(),
            payload: Payload::Empty,
        }
    }

    /// The numbers of the issues that the reply to `list_request` lists.
    pub fn list_ticket_numbers(&self, reply: &HttpReply) -> (r: Result<Vec<u64>, UpstreamError>)
        ensures
            match r {
                Ok(ids) => github_list_read(*reply) == Ok::<Seq<u64>, UpstreamErrorView>(ids@),
                Err(e) => github_list_read(*reply) == Err::<Seq<u64>, UpstreamErrorView>(e@),
            },
    {
        match reply {
            HttpReply::Response { status, body } => {
                if *status != UNAUTHORIZED && !(200 <= *status && *status <= 299) {
                    return match text_of_bytes(body) {
                        Some(t) => Err(UpstreamError::Other(t)),
                        None => Err(UpstreamError::other("Unexpected response format")),
                    };
                }
            },
            _ => {},
        }
        let json = match read_json(reply) {
            Ok(j) => j,
            Err(e) => {
                return Err(e);
            },
        };
        let list = match json.as_list() {
            Some(list) => list,
            None => {
                return Err(UpstreamError::other("Unexpected response format"));
            },
        };
        let mut ids: Vec<u64> = Vec::new();
        let mut i: usize = 0;
        assert(list@.take(0) =~= Seq::<Json>::empty());
        while i < list.len()
            invariant
                i <= list@.len(),
                issue_numbers(list@.take(i as int)) == Ok::<Seq<u64>, UpstreamErrorView>(ids@),
                github_list_read(*reply) == issue_numbers(list@),
            decreases list@.len() - i,
        {
            proof {
                let cur = list@.take(i + 1);
                assert(cur.drop_last() =~= list@.take(i as int));
                assert(cur.last() == list@[i as int]);
            }
            match read_issue(&list[i]) {
                Ok(entry) => {
                    ids.push(entry.0);
                },
                Err(e) => {
                    proof {
                        lemma_numbers_failed(list@, i as int);
                    }
                    return Err(e);
                },
            }
            i += 1;
        }
        assert(list@.take(list@.len() as int) =~= list@);
        Ok(ids)
    }

    /// The request for the issue `id`.
    pub fn details_request(&self, id: u64) -> (r: HttpRequest)
        ensures
            r@ == github_details_request(self@, id),
    {
        let mut url = self.issues_address();
        url.append("/");
        push_decimal(&mut url, id);
        let query: Vec<(String, String)> = Vec::new();
        assert(pairs(query@) =~= Seq::<(Seq<char>, Seq<char>)>::empty());
        HttpRequest {
            method: Method::Get,
            url,
            query,
            headers: standard_headers(),
            authorization: self.authorization(),
            payload: Payload::Empty,
        }
    }

    /// The requests for the issues `ids`, one for each in order.
    pub fn details_requests(&self, ids: &[u64]) -> (r: Vec<HttpRequest>)
        ensures
            crate::issue_tracker::http::request_views(r@) == github_details_requests(self@, ids@),
    {
        let mut requests: Vec<HttpRequest> = Vec::new();
        let mut i: usize = 0;
        let ghost all = github_details_requests(self@, ids@);
        while i < ids.len()
            invariant
                i <= ids@.len(),
                all == github_details_requests(self@, ids@),
                crate::issue_tracker::http::request_views(requests@) == all.take(i as int),
            decreases ids@.len() - i,
        {
            let request = self.details_request(ids[i]);
            let ghost before = crate::issue_tracker::http::request_views(requests@);
            let ghost added = request@;
            requests.push(request);
            assert(crate::issue_tracker::http::request_views(requests@) =~= before.push(added));
            assert(crate::issue_tracker::http::request_views(requests@) =~= all.take(i + 1));
            i += 1;
        }
        assert(crate::issue_tracker::http::request_views(requests@) =~= all);
        requests
    }

    /// The ticket in the reply to `details_request(id)`.
    pub fn read_ticket(&self, id: u64, reply: &HttpReply) -> (r: Result<Ticket, UpstreamError>)
        ensures
            match r {
                Ok(t) => github_ticket_read(id, *reply) == Ok::<TicketView, UpstreamErrorView>(t@),
                Err(e) => github_ticket_read(id, *reply) == Err::<TicketView, UpstreamErrorView>(
                    e@,
                ),
            },
    {
        let json = match read_json(reply) {
            Ok(j) => j,
            Err(e) => {
                return Err(e);
            },
        };
        match read_issue(&json) {
            Ok(entry) => Ok(Ticket::new(id, entry.1, entry.2)),
            Err(e) => Err(e),
        }
    }

    /// The tickets in the replies to the requests for the issues `ids`, one
    /// reply for each in order.
    pub fn get_ticket_details(&self, ids: &[u64], replies: &Vec<HttpReply>) -> (r: Result<
        Vec<Ticket>,
        UpstreamError,
    >)
        ensures
            match r {
                Ok(tickets) => github_details_read(ids@, replies@) == Ok::<
                    Seq<TicketView>,
                    UpstreamErrorView,
                >(ticket_views(tickets@)),
                Err(e) => github_details_read(ids@, replies@) == Err::<
                    Seq<TicketView>,
                    UpstreamErrorView,
                >(e@),
            },
    {
        let n: usize = if ids.len() <= replies.len() {
            ids.len()
        } else {
            replies.len()
        };
        let mut tickets: Vec<Ticket> = Vec::new();
        let mut i: usize = 0;
        assert(ticket_views(tickets@) =~= Seq::<TicketView>::empty());
        while i < n
            invariant
                i <= n,
                n <= ids@.len(),
                n <= replies@.len(),
                n == ids@.len() || n == replies@.len(),
                github_details_upto(ids@, replies@, i as int) == Ok::<
                    Seq<TicketView>,
                    UpstreamErrorView,
                >(ticket_views(tickets@)),
            decreases n - i,
        {
            match self.read_ticket(ids[i], &replies[i]) {
                Ok(t) => {
                    let ghost before = ticket_views(tickets@);
                    tickets.push(t);
                    assert(ticket_views(tickets@) =~= before.push(t@));
                },
                Err(e) => {
                    proof {
                        lemma_details_failed(ids@, replies@, i as int, n as int);
                    }
                    return Err(e);
                },
            }
            i += 1;
        }
        Ok(tickets)
    }
}

/// The error of the first malformed issue is the error of the whole list.
proof fn lemma_numbers_failed(list: Seq<Json>, i: int)
    requires
        0 <= i < list.len(),
        issue_numbers(list.take(i)) is Ok,
        issue_entry(list[i]) is Err,
    ensures
        issue_numbers(list) == Err::<Seq<u64>, UpstreamErrorView>(issue_entry(list[i])->Err_0),
    decreases list.len(),
{
    if i < list.len() - 1 {
        assert(list.drop_last().take(i) =~= list.take(i));
        lemma_numbers_failed(list.drop_last(), i);
    } else {
        assert(list.drop_last() =~= list.take(i));
    }
}

/// The first reply that holds no ticket decides the whole.
proof fn lemma_details_failed(ids: Seq<u64>, replies: Seq<HttpReply>, i: int, n: int)
    requires
        0 <= i < n,
        github_details_upto(ids, replies, i) is Ok,
        github_ticket_read(ids[i], replies[i]) is Err,
    ensures
        github_details_upto(ids, replies, n) == Err::<Seq<TicketView>, UpstreamErrorView>(
            github_ticket_read(ids[i], replies[i])->Err_0,
        ),
    decreases n,
{
    if i < n - 1 {
        lemma_details_failed(ids, replies, i, n - 1);
    }
}

} // verus!
