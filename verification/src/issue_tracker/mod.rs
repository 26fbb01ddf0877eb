//! Tickets, the errors of a tracker, and the cache in front of a tracker.

use vstd::prelude::*;

pub mod azure;
pub mod builder;
pub mod cache;
pub mod demo;
pub mod github;
pub mod gitlab;
pub mod http;

verus! {

/// What a ticket is: its number, its title and its body.
pub struct TicketView {
    pub id: u64,
    pub title: Seq<char>,
    pub text: Seq<char>,
}

/// A unit of work in an issue tracker. Its identity is its `id`.
#[derive(Debug)]
pub struct Ticket {
    id: u64,
    title: String,
    text: String,
}

impl View for Ticket {
    type V = TicketView;

    closed spec fn view(&self) -> TicketView {
        TicketView { id: self.id, title: self.title@, text: self.text@ }
    }
}

impl Clone for Ticket {
    fn clone(&self) -> (r: Self)
        ensures
            r@ == self@,
    {
        Ticket { id: self.id, title: self.title.clone(), text: self.text.clone() }
    }
}

impl Ticket {
    pub fn new(id: u64, title: String, text: String) -> (r: Self)
        ensures
            r@ == (TicketView { id, title: title@, text: text@ }),
    {
        Self { id, title, text }
    }

    pub fn id(&self) -> (r: u64)
        ensures
            r == self@.id,
    {
        self.id
    }

    pub fn title(&self) -> (r: &str)
        ensures
            r@ == self@.title,
    {
        self.title.as_str()
    }

    pub fn text(&self) -> (r: &str)
        ensures
            r@ == self@.text,
    {
        self.text.as_str()
    }
}

/// The views of a sequence of tickets.
pub open spec fn ticket_views(tickets: Seq<Ticket>) -> Seq<TicketView> {
    Seq::new(tickets.len(), |i: int| tickets[i]@)
}

/// What an error says, with its text as a sequence of characters.
pub enum UpstreamErrorView {
    Io(Seq<char>),
    Authentication,
    Other(Seq<char>),
}

/// The ways in which asking a tracker, or the tools around it, can fail.
#[derive(Debug)]
pub enum UpstreamError {
    /// A process or the network failed; the text is what the system said.
    Io(String),
    /// The tracker refused the credential.
    Authentication,
    /// Anything else, with a description.
    Other(String),
}

impl View for UpstreamError {
    type V = UpstreamErrorView;

    open spec fn view(&self) -> UpstreamErrorView {
        match self {
            UpstreamError::Io(m) => UpstreamErrorView::Io(m@),
            UpstreamError::Authentication => UpstreamErrorView::Authentication,
            UpstreamError::Other(m) => UpstreamErrorView::Other(m@),
        }
    }
}

impl Clone for UpstreamError {
    fn clone(&self) -> (r: Self)
        ensures
            r@ == self@,
    {
        match self {
            UpstreamError::Io(m) => UpstreamError::Io(m.clone()),
            UpstreamError::Authentication => UpstreamError::Authentication,
            UpstreamError::Other(m) => UpstreamError::Other(m.clone()),
        }
    }
}

/// The text that an error is shown as.
pub open spec fn error_text(e: UpstreamErrorView) -> Seq<char> {
    match e {
        UpstreamErrorView::Io(m) => "IO Error interacting with remote: "@ + m,
        UpstreamErrorView::Authentication => "Authentication failed"@,
        UpstreamErrorView::Other(m) => m,
    }
}

impl UpstreamError {
    /// The text that the error is shown as.
    pub fn message(&self) -> (r: String)
        ensures
            r@ == error_text(self@),
    {
        match self {
            UpstreamError::Io(m) => crate::text::concat("IO Error interacting with remote: ", m.as_str()),
            UpstreamError::Authentication => crate::text::owned("Authentication failed"),
            UpstreamError::Other(m) => m.clone(),
        }
    }

    /// An error of the kind `Other` with the given description.
    pub fn other(description: &str) -> (r: Self)
        ensures
            r@ == UpstreamErrorView::Other(description@),
    {
        UpstreamError::Other(crate::text::owned(description))
    }
}

/// The adapter of a tracker: one of the trackers that can be asked. It is
/// chosen once, when the tracker is built.
pub enum Adapter {
    Demo(demo::DemoAdapter),
    Github(github::Github),
    Gitlab(gitlab::Gitlab),
    AzureDevops(azure::AzureDevops),
}

impl Adapter {
    /// Which tracker the adapter asks.
    pub fn kind(&self) -> (r: builder::IssueTrackerType)
        ensures
            r == match self {
                Adapter::Demo(_) => builder::IssueTrackerType::Demo,
                Adapter::Github(_) => builder::IssueTrackerType::Github,
                Adapter::Gitlab(_) => builder::IssueTrackerType::Gitlab,
                Adapter::AzureDevops(_) => builder::IssueTrackerType::AzureDevOps,
            },
    {
        match self {
            Adapter::Demo(_) => builder::IssueTrackerType::Demo,
            Adapter::Github(_) => builder::IssueTrackerType::Github,
            Adapter::Gitlab(_) => builder::IssueTrackerType::Gitlab,
            Adapter::AzureDevops(_) => builder::IssueTrackerType::AzureDevOps,
        }
    }
}

/// What is to be done to get an answer from a tracker.
#[derive(Debug)]
pub enum Ask {
    /// Send this request.
    Http(http::HttpRequest),
    /// Send these requests, one after the other.
    HttpEach(Vec<http::HttpRequest>),
    /// Read the names of the files in this directory.
    Directory(String),
    /// Read the files with these names in this directory.
    Files { folder: String, names: Vec<String> },
    /// Ask GitLab this question.
    Gitlab(gitlab::GitlabQuery),
}

pub enum AskView {
    Http(http::HttpRequestView),
    HttpEach(Seq<http::HttpRequestView>),
    Directory(Seq<char>),
    Files { folder: Seq<char>, names: Seq<Seq<char>> },
    Gitlab(gitlab::GitlabQueryView),
}

impl View for Ask {
    type V = AskView;

    open spec fn view(&self) -> AskView {
        match self {
            Ask::Http(r) => AskView::Http(r@),
            Ask::HttpEach(rs) => AskView::HttpEach(http::request_views(rs@)),
            Ask::Directory(d) => AskView::Directory(d@),
            Ask::Files { folder, names } => AskView::Files {
                folder: folder@,
                names: crate::text::texts(names@),
            },
            Ask::Gitlab(q) => AskView::Gitlab(q@),
        }
    }
}

/// What came of it.
#[derive(Debug)]
pub enum Answer {
    /// The reply to the request.
    Http(http::HttpReply),
    /// The replies to the requests, one for each in order, as far as they
    /// were sent.
    HttpEach(Vec<http::HttpReply>),
    /// The names of the files in the directory.
    Names(Vec<String>),
    /// What each file holds, in order; none for a file that could not be read.
    Contents(Vec<Option<String>>),
    /// What GitLab answered.
    Gitlab(Result<Vec<gitlab::GitlabIssue>, gitlab::GitlabFailure>),
}

/// The text of the error for an answer that does not go with the adapter.
pub open spec fn wrong_answer() -> Seq<char> {
    "The tracker answered another question"@
}

/// The names of the files of the tickets `ids`.
pub open spec fn file_names(ids: Seq<u64>) -> Seq<Seq<char>> {
    Seq::new(ids.len(), |i: int| crate::text::decimal_of(ids[i] as nat))
}

/// The request that has to be answered before the tickets can be listed:
/// with GitHub and a credential, as long as the user is not known, the
/// request for the user.
pub open spec fn user_ask(adapter: Adapter) -> Option<http::HttpRequestView> {
    match adapter {
        Adapter::Github(g) => if github::known_assignee(g@) is None {
            Some(github::github_user_request())
        } else {
            None
        },
        _ => None,
    }
}

/// What is to be done to list the tickets of the user; nothing as long as
/// the user has to be asked for.
pub open spec fn list_ask(adapter: Adapter) -> Option<AskView> {
    match adapter {
        Adapter::Demo(d) => Some(AskView::Directory(d.folder())),
        Adapter::Github(g) => match github::known_assignee(g@) {
            Some(assignee) => Some(AskView::Http(github::github_list_request(g@, assignee))),
            None => None,
        },
        Adapter::Gitlab(g) => Some(AskView::Gitlab(gitlab::gitlab_list_query(g@))),
        Adapter::AzureDevops(a) => Some(AskView::Http(azure::azure_list_request(a@))),
    }
}

/// What is to be done to fetch the tickets `ids`.
pub open spec fn details_ask(adapter: Adapter, ids: Seq<u64>) -> AskView {
    match adapter {
        Adapter::Demo(d) => AskView::Files { folder: d.folder(), names: file_names(ids) },
        Adapter::Github(g) => AskView::HttpEach(github::github_details_requests(g@, ids)),
        Adapter::Gitlab(g) => AskView::Gitlab(gitlab::gitlab_details_query(g@, ids)),
        Adapter::AzureDevops(a) => AskView::Http(azure::azure_details_request(a@, ids)),
    }
}

/// The numbers that an answer lists, read the way of the adapter. An answer
/// of a kind that the adapter does not ask for is an error.
pub open spec fn listed(adapter: Adapter, answer: Answer) -> Result<Seq<u64>, UpstreamErrorView> {
    match (adapter, answer) {
        (Adapter::Demo(_), Answer::Names(names)) => Ok(
            demo::numbered(crate::text::texts(names@)),
        ),
        (Adapter::Github(_), Answer::Http(reply)) => github::github_list_read(reply),
        (Adapter::Gitlab(_), Answer::Gitlab(reply)) => gitlab::gitlab_list_read(reply),
        (Adapter::AzureDevops(_), Answer::Http(reply)) => azure::azure_list_read(reply),
        _ => Err(UpstreamErrorView::Other(wrong_answer())),
    }
}

/// The tickets that an answer holds, read the way of the adapter as the
/// answer about the tickets `ids`.
pub open spec fn detailed(adapter: Adapter, ids: Seq<u64>, answer: Answer) -> Result<
    Seq<TicketView>,
    UpstreamErrorView,
> {
    match (adapter, answer) {
        (Adapter::Demo(_), Answer::Contents(contents)) => Ok(demo::demo_tickets(ids, contents@)),
        (Adapter::Github(_), Answer::HttpEach(replies)) => github::github_details_read(
            ids,
            replies@,
        ),
        (Adapter::Gitlab(_), Answer::Gitlab(reply)) => gitlab::gitlab_details_read(reply),
        (Adapter::AzureDevops(_), Answer::Http(reply)) => azure::azure_details_read(reply),
        _ => Err(UpstreamErrorView::Other(wrong_answer())),
    }
}

/// Numbers or an error, as plain values.
pub open spec fn listed_views(r: Result<Vec<u64>, UpstreamError>) -> Result<
    Seq<u64>,
    UpstreamErrorView,
> {
    match r {
        Ok(ids) => Ok(ids@),
        Err(e) => Err(e@),
    }
}

impl Adapter {
    /// The credential that goes with what is asked, if there is one.
    pub fn credential(&self) -> (r: Option<&secure_string::SecureString>)
        ensures
            match r {
                Some(s) => match self {
                    Adapter::Demo(_) => false,
                    Adapter::Github(g) => g@.token == Some(crate::credentials::secret_text(s)),
                    Adapter::Gitlab(g) => g@.token == crate::credentials::secret_text(s),
                    Adapter::AzureDevops(a) => a@.pat == crate::credentials::secret_text(s),
                },
                None => match self {
                    Adapter::Demo(_) => true,
                    Adapter::Github(g) => g@.token is None,
                    _ => false,
                },
            },
    {
        match self {
            Adapter::Demo(_) => None,
            Adapter::Github(g) => g.credential(),
            Adapter::Gitlab(g) => Some(g.credential()),
            Adapter::AzureDevops(a) => Some(a.credential()),
        }
    }

    /// The request for the user, where the user has to be known before the
    /// tickets can be listed and is not known yet.
    pub fn username_request(&self) -> (r: Option<http::HttpRequest>)
        ensures
            match r {
                Some(request) => user_ask(*self) == Some(request@),
                None => user_ask(*self) is None,
            },
    {
        match self {
            Adapter::Github(g) => match g.assignee() {
                Some(_) => None,
                None => Some(g.username_request()),
            },
            _ => None,
        }
    }

    /// What is to be done to list the tickets of the user.
    pub fn list_request(&self) -> (r: Option<Ask>)
        ensures
            match r {
                Some(ask) => list_ask(*self) == Some(ask@),
                None => list_ask(*self) is None,
            },
    {
        match self {
            Adapter::Demo(d) => Some(Ask::Directory(crate::text::owned(d.source_folder()))),
            Adapter::Github(g) => match g.assignee() {
                Some(assignee) => Some(Ask::Http(g.list_request(assignee.as_str()))),
                None => None,
            },
            Adapter::Gitlab(g) => Some(Ask::Gitlab(g.list_query())),
            Adapter::AzureDevops(a) => Some(Ask::Http(a.list_request())),
        }
    }

    /// The numbers of the tickets of the user, from the answer to what
    /// `list_request` asks.
    pub fn list_ticket_numbers(&self, answer: &Answer) -> (r: Result<Vec<u64>, UpstreamError>)
        ensures
            listed_views(r) == listed(*self, *answer),
    {
        match (self, answer) {
            (Adapter::Demo(d), Answer::Names(names)) => d.list_ticket_numbers(names),
            (Adapter::Github(g), Answer::Http(reply)) => g.list_ticket_numbers(reply),
            (Adapter::Gitlab(g), Answer::Gitlab(reply)) => g.list_ticket_numbers(reply),
            (Adapter::AzureDevops(a), Answer::Http(reply)) => a.list_ticket_numbers(reply),
            _ => Err(UpstreamError::other("The tracker answered another question")),
        }
    }

    /// What is to be done to fetch the tickets `ids`.
    pub fn details_request(&self, ids: &[u64]) -> (r: Ask)
        ensures
            r@ == details_ask(*self, ids@),
    {
        match self {
            Adapter::Demo(d) => {
                let mut names: Vec<String> = Vec::new();
                let mut i: usize = 0;
                while i < ids.len()
                    invariant
                        i <= ids@.len(),
                        crate::text::texts(names@) == file_names(ids@).take(i as int),
                    decreases ids@.len() - i,
                {
                    let name = demo::DemoAdapter::file_name(ids[i]);
                    let ghost before = crate::text::texts(names@);
                    let ghost added = name@;
                    names.push(name);
                    assert(crate::text::texts(names@) =~= before.push(added));
                    assert(crate::text::texts(names@) =~= file_names(ids@).take(i + 1));
                    i += 1;
                }
                assert(crate::text::texts(names@) =~= file_names(ids@));
                Ask::Files { folder: crate::text::owned(d.source_folder()), names }
            },
            Adapter::Github(g) => Ask::HttpEach(g.details_requests(ids)),
            Adapter::Gitlab(g) => Ask::Gitlab(g.details_query(ids)),
            Adapter::AzureDevops(a) => Ask::Http(a.details_request(ids)),
        }
    }

    /// The tickets `ids`, from the answer to what `details_request` asks.
    /// Numbers that the tracker does not know are absent from the result.
    pub fn get_ticket_details(&self, ids: &[u64], answer: &Answer) -> (r: Result<
        Vec<Ticket>,
        UpstreamError,
    >)
        ensures
            fetched_views(r) == detailed(*self, ids@, *answer),
    {
        match (self, answer) {
            (Adapter::Demo(d), Answer::Contents(contents)) => d.get_ticket_details(ids, contents),
            (Adapter::Github(g), Answer::HttpEach(replies)) => g.get_ticket_details(ids, replies),
            (Adapter::Gitlab(g), Answer::Gitlab(reply)) => g.get_ticket_details(reply),
            (Adapter::AzureDevops(a), Answer::Http(reply)) => a.get_ticket_details(reply),
            _ => Err(UpstreamError::other("The tracker answered another question")),
        }
    }
}

/// The ticket that a fetch for a single number brought: the one that came,
/// if exactly one came.
pub open spec fn single_ticket(fetched: Seq<TicketView>) -> Option<TicketView> {
    if fetched.len() == 1 {
        Some(fetched[0])
    } else {
        None
    }
}

/// The cache after a fetch of all tickets ended: with the tickets merged in
/// if it succeeded, unchanged if it failed.
pub open spec fn after_bulk_fetch(
    cache: Seq<TicketView>,
    fetched: Result<Seq<TicketView>, UpstreamErrorView>,
) -> Seq<TicketView> {
    match fetched {
        Ok(tickets) => cache::merged(cache, tickets),
        Err(_) => cache,
    }
}

/// The cache after a fetch for a single number ended: with the ticket
/// stored if exactly one came, and otherwise unchanged.
pub open spec fn after_single_fetch(
    cache: Seq<TicketView>,
    fetched: Result<Seq<TicketView>, UpstreamErrorView>,
) -> Seq<TicketView> {
    match fetched {
        Ok(tickets) => match single_ticket(tickets) {
            Some(t) => cache::stored(cache, t),
            None => cache,
        },
        Err(_) => cache,
    }
}

/// What a fetch for a single number answers: the ticket if exactly one came,
/// nothing if none or several came, and the error if it failed.
pub open spec fn single_fetch_answer(
    fetched: Result<Seq<TicketView>, UpstreamErrorView>,
) -> Result<Option<TicketView>, UpstreamErrorView> {
    match fetched {
        Ok(tickets) => Ok(single_ticket(tickets)),
        Err(e) => Err(e),
    }
}

/// How many fetches a lookup of `id` needs: none if the cache holds the
/// ticket, and one otherwise.
pub open spec fn fetches_needed(cache: Seq<TicketView>, id: u64) -> nat {
    if cache::lookup(cache, id) is Some {
        0
    } else {
        1
    }
}

/// The cache after a whole lookup of `id`, where `fetched` is what the fetch
/// brings if one is needed.
pub open spec fn after_lookup(
    cache: Seq<TicketView>,
    id: u64,
    fetched: Result<Seq<TicketView>, UpstreamErrorView>,
) -> Seq<TicketView> {
    if cache::lookup(cache, id) is Some {
        cache
    } else {
        after_single_fetch(cache, fetched)
    }
}

/// What was fetched, with the tickets as plain values.
pub open spec fn fetched_views(fetched: Result<Vec<Ticket>, UpstreamError>) -> Result<
    Seq<TicketView>,
    UpstreamErrorView,
> {
    match fetched {
        Ok(tickets) => Ok(ticket_views(tickets@)),
        Err(e) => Err(e@),
    }
}

/// A tracker with the tickets that were fetched from it.
pub struct IssueTracker {
    remote: Adapter,
    ticket_cache: cache::TicketCache,
}

impl IssueTracker {
    /// The tickets that are cached, in the order of their numbers.
    pub closed spec fn cache(&self) -> Seq<TicketView> {
        self.ticket_cache@
    }

    /// The adapter that the tracker was built with.
    pub closed spec fn remote(&self) -> Adapter {
        self.remote
    }

    /// The cache holds each number at most once, in rising order.
    pub open spec fn well_formed(&self) -> bool {
        cache::sorted_by_id(self.cache())
    }

    /// Whether the cache holds each number at most once, in rising order.
    pub fn is_well_formed(&self) -> (r: bool)
        ensures
            r == self.well_formed(),
    {
        self.ticket_cache.is_well_formed()
    }

    /// A tracker that asks through `adapter`, with nothing cached.
    pub fn new(adapter: Adapter) -> (r: Self)
        ensures
            r.cache() == Seq::<TicketView>::empty(),
            r.remote() == adapter,
            r.well_formed(),
    {
        Self { remote: adapter, ticket_cache: cache::TicketCache::new() }
    }

    /// The adapter to ask through.
    pub fn adapter(&self) -> (r: &Adapter)
        ensures
            *r == self.remote(),
    {
        &self.remote
    }

    /// Remembers the name of the user that the credential belongs to, where
    /// the tracker is GitHub; elsewhere nothing changes. Hands back the name
    /// that is remembered, if any.
    pub fn remember_username(&mut self, name: String) -> (r: Option<String>)
        ensures
            final(self).cache() == old(self).cache(),
            match (old(self).remote(), final(self).remote()) {
                (Adapter::Github(before), Adapter::Github(after)) => {
                    &&& r matches Some(known)
                    &&& known@ == match before@.username {
                        Some(earlier) => earlier,
                        None => name@,
                    }
                    &&& after@ == (github::GithubView { username: Some(known@), ..before@ })
                },
                _ => r is None && final(self).remote() == old(self).remote(),
            },
    {
        match &mut self.remote {
            Adapter::Github(g) => Some(g.get_username(name)),
            _ => None,
        }
    }

    /// Takes what a fetch of all tickets brought: the tickets are merged into
    /// the cache and handed back; a failure is handed back and leaves the
    /// cache as it was.
    pub fn request_ticket_information(&mut self, fetched: Result<Vec<Ticket>, UpstreamError>) -> (r:
        Result<Vec<Ticket>, UpstreamError>)
        requires
            old(self).well_formed(),
        ensures
            fetched_views(r) == fetched_views(fetched),
            final(self).cache() == after_bulk_fetch(old(self).cache(), fetched_views(fetched)),
            final(self).remote() == old(self).remote(),
            final(self).well_formed(),
    {
        match fetched {
            Ok(tickets) => {
                self.ticket_cache.extend(&tickets);
                Ok(tickets)
            },
            Err(e) => Err(e),
        }
    }

    /// A copy of all cached tickets, in the order of their numbers.
    pub fn list_tickets(&self) -> (r: Vec<Ticket>)
        ensures
            ticket_views(r@) == self.cache(),
    {
        self.ticket_cache.values()
    }

    /// The cached ticket with the number `id`. Where there is none, the
    /// ticket has to be fetched and the answer handed to `get_ticket_details`.
    pub fn cached_ticket(&self, id: u64) -> (r: Option<Ticket>)
        ensures
            match r {
                Some(t) => cache::lookup(self.cache(), id) == Some(t@),
                None => cache::lookup(self.cache(), id) is None,
            },
            (r is None) == (fetches_needed(self.cache(), id) == 1),
    {
        match self.ticket_cache.get(id) {
            Some(t) => Some(t.clone()),
            None => None,
        }
    }

    /// Takes what a fetch for the single number `id` brought. Exactly one
    /// ticket is stored and handed back; none or several are not found; a
    /// failure is handed back. A single ticket with another number is
    /// something that no tracker answers.
    pub fn get_ticket_details(&mut self, id: u64, fetched: Result<Vec<Ticket>, UpstreamError>) -> (r:
        Result<Option<Ticket>, UpstreamError>)
        requires
            old(self).well_formed(),
            fetched matches Ok(tickets) ==> (tickets@.len() == 1 ==> tickets@[0]@.id == id),
        ensures
            match r {
                Ok(Some(t)) => single_fetch_answer(fetched_views(fetched)) == Ok::<
                    Option<TicketView>,
                    UpstreamErrorView,
                >(Some(t@)),
                Ok(None) => single_fetch_answer(fetched_views(fetched)) == Ok::<
                    Option<TicketView>,
                    UpstreamErrorView,
                >(None),
                Err(e) => single_fetch_answer(fetched_views(fetched)) == Err::<
                    Option<TicketView>,
                    UpstreamErrorView,
                >(e@),
            },
            final(self).cache() == after_single_fetch(old(self).cache(), fetched_views(fetched)),
            final(self).remote() == old(self).remote(),
            final(self).well_formed(),
    {
        let tickets = match fetched {
            Ok(tickets) => tickets,
            Err(e) => {
                return Err(e);
            },
        };
        if tickets.len() != 1 {
            return Ok(None);
        }
        let ticket = tickets[0].clone();
        self.ticket_cache.insert(ticket.clone());
        Ok(Some(ticket))
    }
}

/// A fetch of all tickets that failed leaves the cache, and with it what a
/// listing shows, as it was.
pub proof fn lemma_failed_fetch_keeps_cache(cache: Seq<TicketView>, error: UpstreamErrorView)
    ensures
        after_bulk_fetch(cache, Err(error)) == cache,
{
}

/// Once a lookup of `id` has brought its ticket, from the cache or by a
/// fetch that answered with exactly that ticket, a second lookup of `id`
/// needs no fetch: the two together need at most one.
pub proof fn lemma_lookup_fetches_once(
    cache: Seq<TicketView>,
    id: u64,
    fetched: Result<Seq<TicketView>, UpstreamErrorView>,
)
    requires
        cache::sorted_by_id(cache),
        cache::lookup(cache, id) is Some || (fetched matches Ok(tickets) && tickets.len() == 1
            && tickets[0].id == id),
    ensures
        fetches_needed(after_lookup(cache, id, fetched), id) == 0,
        fetches_needed(cache, id) + fetches_needed(after_lookup(cache, id, fetched), id) <= 1,
{
    if cache::lookup(cache, id) is None {
        cache::lemma_stored_found(cache, fetched->Ok_0[0]);
    }
}

/// A lookup changes nothing in the cache but, where it fetched, the ticket
/// of its number.
pub proof fn lemma_lookup_touches_one(
    cache: Seq<TicketView>,
    id: u64,
    fetched: Result<Seq<TicketView>, UpstreamErrorView>,
    other: u64,
)
    requires
        cache::sorted_by_id(cache),
        fetched matches Ok(tickets) ==> (tickets.len() == 1 ==> tickets[0].id == id),
        other != id,
    ensures
        cache::lookup(after_lookup(cache, id, fetched), other) == cache::lookup(cache, other),
{
    if cache::lookup(cache, id) is None {
        if let Ok(tickets) = fetched {
            if tickets.len() == 1 {
                cache::lemma_stored_others(cache, tickets[0], other);
            }
        }
    }
}

/// Nothing leaves the cache: a ticket that is found before tickets are
/// merged in is found afterwards.
pub proof fn lemma_merge_keeps(cache: Seq<TicketView>, tickets: Seq<TicketView>, id: u64)
    requires
        cache::sorted_by_id(cache),
        cache::lookup(cache, id) is Some,
    ensures
        cache::lookup(cache::merged(cache, tickets), id) is Some,
    decreases tickets.len(),
{
    if tickets.len() > 0 {
        lemma_merge_keeps(cache, tickets.drop_last(), id);
        cache::lemma_merged_sorted(cache, tickets.drop_last());
        cache::lemma_stored_keeps(cache::merged(cache, tickets.drop_last()), tickets.last(), id);
    }
}

/// The last write wins: after tickets were merged in, the number of the last
/// of them is found with that ticket.
pub proof fn lemma_merge_last_wins(cache: Seq<TicketView>, tickets: Seq<TicketView>)
    requires
        cache::sorted_by_id(cache),
        tickets.len() > 0,
    ensures
        cache::lookup(cache::merged(cache, tickets), tickets.last().id) == Some(tickets.last()),
{
    cache::lemma_merged_sorted(cache, tickets.drop_last());
    cache::lemma_stored_found(cache::merged(cache, tickets.drop_last()), tickets.last());
}


} // verus!
