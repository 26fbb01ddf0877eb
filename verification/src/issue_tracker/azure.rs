//! Azure DevOps: work items through a query and a batch request.

use vstd::prelude::*;
use secure_string::SecureString;
use crate::credentials::secret_text;
use crate::issue_tracker::builder::{opt_secret, TrackerConfig};
use crate::issue_tracker::http::{
    pair, pairs, read_json, reply_json, Authorization, HttpReply, HttpRequest, HttpRequestView,
    Method, Payload, PayloadView,
};
use crate::issue_tracker::{ticket_views, Ticket, TicketView, UpstreamError, UpstreamErrorView};
use crate::json::{items, member, number, string, Json};
use crate::text::{owned, texts};

verus! {

/// The adapter for Azure DevOps.
pub struct AzureDevops {
    pat: SecureString,
    organization: String,
    project: String,
}

pub struct AzureDevopsView {
    pub pat: Seq<char>,
    pub organization: Seq<char>,
    pub project: Seq<char>,
}

impl View for AzureDevops {
    type V = AzureDevopsView;

    closed spec fn view(&self) -> AzureDevopsView {
        AzureDevopsView {
            pat: secret_text(&self.pat),
            organization: self.organization@,
            project: self.project@,
        }
    }
}

/// The address under which the interfaces of a project are found.
pub open spec fn azure_base_url(organization: Seq<char>, project: Seq<char>) -> Seq<char> {
    "https://dev.azure.com/"@ + organization + "/"@ + project + "/_apis"@
}

/// The query for the work items that are assigned to the user and among the
/// user's recent activity.
pub open spec fn assigned_items_query() -> Seq<char> {
    "SELECT [System.Id] FROM WorkItems WHERE [System.TeamProject] = @project AND [Assigned To] = @me AND [System.Id] in (@MyRecentActivity)"@
}

/// The version of the interfaces that is asked for.
pub open spec fn api_version() -> Seq<(Seq<char>, Seq<char>)> {
    seq![("api-version"@, "7.0"@)]
}

/// The fields of a work item that are asked for.
pub open spec fn ticket_fields() -> Seq<Seq<char>> {
    seq!["System.Title"@, "System.Description"@]
}

/// The request that lists the work items assigned to the user.
pub open spec fn azure_list_request(v: AzureDevopsView) -> HttpRequestView {
    HttpRequestView {
        method: Method::Post,
        url: azure_base_url(v.organization, v.project) + "/wit/wiql"@,
        query: api_version(),
        headers: seq![("Accept"@, "application/json"@)],
        authorization: Authorization::Basic,
        payload: PayloadView::Query(assigned_items_query()),
    }
}

/// The request for title and description of the work items `ids`.
pub open spec fn azure_details_request(v: AzureDevopsView, ids: Seq<u64>) -> HttpRequestView {
    HttpRequestView {
        method: Method::Post,
        url: azure_base_url(v.organization, v.project) + "/wit/workitemsbatch"@,
        query: api_version(),
        headers: Seq::<(Seq<char>, Seq<char>)>::empty(),
        authorization: Authorization::Basic,
        payload: PayloadView::WorkItemsBatch { ids, fields: ticket_fields() },
    }
}

pub open spec fn unexpected_format() -> Seq<char> {
    "Unexpected response format"@
}

pub open spec fn id_not_integer() -> Seq<char> {
    "Got ID that is not an integer!"@
}

pub open spec fn item_id_not_integer() -> Seq<char> {
    "Item ID is not an integer"@
}

pub open spec fn item_without_title() -> Seq<char> {
    "Item is missing a title"@
}

/// The number of a work item: its member `id`.
pub open spec fn work_item_id(item: Json) -> Option<u64> {
    match member(item, "id"@) {
        Some(v) => number(v),
        None => None,
    }
}

/// The numbers of work items, if each has one.
pub open spec fn work_item_ids(list: Seq<Json>) -> Option<Seq<u64>>
    decreases list.len(),
{
    if list.len() == 0 {
        Some(Seq::<u64>::empty())
    } else {
        match (work_item_ids(list.drop_last()), work_item_id(list.last())) {
            (Some(before), Some(id)) => Some(before.push(id)),
            _ => None,
        }
    }
}

/// What the answer to the query lists: the numbers under `workItems`.
pub open spec fn azure_listed(j: Json) -> Result<Seq<u64>, UpstreamErrorView> {
    match member(j, "workItems"@) {
        Some(w) => match items(w) {
            Some(list) => match work_item_ids(list) {
                Some(ids) => Ok(ids),
                None => Err(UpstreamErrorView::Other(id_not_integer())),
            },
            None => Err(UpstreamErrorView::Other(unexpected_format())),
        },
        None => Err(UpstreamErrorView::Other(unexpected_format())),
    }
}

/// The field `name` of a work item, where it is a string.
pub open spec fn work_item_field(item: Json, name: Seq<char>) -> Option<Seq<char>> {
    match member(item, "fields"@) {
        Some(fields) => match member(fields, name) {
            Some(v) => string(v),
            None => None,
        },
        None => None,
    }
}

/// The ticket that a work item stands for. It needs a number and a title;
/// without a description its body is empty.
pub open spec fn work_item_ticket(item: Json) -> Result<TicketView, UpstreamErrorView> {
    match work_item_id(item) {
        None => Err(UpstreamErrorView::Other(item_id_not_integer())),
        Some(id) => match work_item_field(item, "System.Title"@) {
            None => Err(UpstreamErrorView::Other(item_without_title())),
            Some(title) => Ok(
                TicketView {
                    id,
                    title,
                    text: match work_item_field(item, "System.Description"@) {
                        Some(d) => d,
                        None => Seq::<char>::empty(),
                    },
                },
            ),
        },
    }
}

/// The tickets that work items stand for, or the error of the first that
/// stands for none.
pub open spec fn work_item_tickets(list: Seq<Json>) -> Result<Seq<TicketView>, UpstreamErrorView>
    decreases list.len(),
{
    if list.len() == 0 {
        Ok(Seq::<TicketView>::empty())
    } else {
        match work_item_tickets(list.drop_last()) {
            Err(e) => Err(e),
            Ok(before) => match work_item_ticket(list.last()) {
                Ok(t) => Ok(before.push(t)),
                Err(e) => Err(e),
            },
        }
    }
}

/// What the answer to the batch request holds: the tickets under `value`.
pub open spec fn azure_detailed(j: Json) -> Result<Seq<TicketView>, UpstreamErrorView> {
    match member(j, "value"@) {
        Some(w) => match items(w) {
            Some(list) => work_item_tickets(list),
            None => Err(UpstreamErrorView::Other(unexpected_format())),
        },
        None => Err(UpstreamErrorView::Other(unexpected_format())),
    }
}

/// The numbers that a reply to the query lists.
pub open spec fn azure_list_read(reply: HttpReply) -> Result<Seq<u64>, UpstreamErrorView> {
    match reply_json(reply) {
        Ok(j) => azure_listed(j),
        Err(e) => Err(e),
    }
}

/// The tickets that a reply to the batch request holds.
pub open spec fn azure_details_read(reply: HttpReply) -> Result<Seq<TicketView>, UpstreamErrorView> {
    match reply_json(reply) {
        Ok(j) => azure_detailed(j),
        Err(e) => Err(e),
    }
}

fn read_work_item_id(item: &Json) -> (r: Option<u64>)
    ensures
        r == work_item_id(*item),
{
    match item.get("id") {
        Some(v) => v.as_u64(),
        None => None,
    }
}

fn read_work_item_field(item: &Json, name: &str) -> (r: Option<String>)
    ensures
        match r {
            Some(s) => work_item_field(*item, name@) == Some(s@),
            None => work_item_field(*item, name@) is None,
        },
{
    match item.get("fields") {
        Some(fields) => match fields.get(name) {
            Some(v) => match v.as_text() {
                Some(s) => Some(owned(s)),
                None => None,
            },
            None => None,
        },
        None => None,
    }
}

fn read_work_item(item: &Json) -> (r: Result<Ticket, UpstreamError>)
    ensures
        match r {
            Ok(t) => work_item_ticket(*item) == Ok::<TicketView, UpstreamErrorView>(t@),
            Err(e) => work_item_ticket(*item) == Err::<TicketView, UpstreamErrorView>(e@),
        },
{
    let id = match read_work_item_id(item) {
        Some(id) => id,
        None => {
            return Err(UpstreamError::other("Item ID is not an integer"));
        },
    };
    let title = match read_work_item_field(item, "System.Title") {
        Some(t) => t,
        None => {
            return Err(UpstreamError::other("Item is missing a title"));
        },
    };
    let text = match read_work_item_field(item, "System.Description") {
        Some(d) => d,
        None => String::new(),
    };
    Ok(Ticket::new(id, title, text))
}

impl AzureDevops {
    /// An adapter for the project that the remote names. It needs a
    /// credential, an organization and an owner, which is the project.
    pub fn new(config: TrackerConfig) -> (r: Option<Self>)
        ensures
            match r {
                Some(a) => {
                    &&& opt_secret(config.secret) == Some(a@.pat)
                    &&& config.url@.organization == Some(a@.organization)
                    &&& config.url@.owner == Some(a@.project)
                },
                None => config.secret is None || config.url.organization is None
                    || config.url.owner is None,
            },
    {
        let TrackerConfig { url, secret } = config;
        let pat = match secret {
            Some(s) => s,
            None => {
                return None;
            },
        };
        let organization = match url.organization {
            Some(o) => o,
            None => {
                return None;
            },
        };
        let project = match url.owner {
            Some(p) => p,
            None => {
                return None;
            },
        };
        Some(Self { pat, organization, project })
    }

    /// The work items that are listed, each number with title and description
    /// of the ticket at its place among the details, as far as both reach.
    pub fn get_work_items(ids: &Vec<u64>, details: &Vec<Ticket>) -> (r: Vec<(u64, (String, String))>)
        ensures
            pair_views(r@) == paired(ids@, ticket_views(details@)),
    {
        let n: usize = if ids.len() <= details.len() {
            ids.len()
        } else {
            details.len()
        };
        let mut out: Vec<(u64, (String, String))> = Vec::new();
        let mut i: usize = 0;
        let ghost all = paired(ids@, ticket_views(details@));
        while i < n
            invariant
                i <= n,
                n <= ids@.len(),
                n <= details@.len(),
                n == all.len(),
                all == paired(ids@, ticket_views(details@)),
                pair_views(out@) == all.take(i as int),
            decreases n - i,
        {
            let title = owned(details[i].title());
            let text = owned(details[i].text());
            let ghost before = pair_views(out@);
            out.push((ids[i], (title, text)));
            assert(pair_views(out@) =~= before.push((ids@[i as int], (title@, text@))));
            assert(pair_views(out@) =~= all.take(i + 1));
            i += 1;
        }
        assert(pair_views(out@) =~= all);
        out
    }

    /// The credential to send with each request.
    pub fn credential(&self) -> (r: &SecureString)
        ensures
            secret_text(r) == self@.pat,
    {
        &self.pat
    }

    /// The address under which the interfaces of the project are found.
    pub fn base_url(&self) -> (r: String)
        ensures
            r@ == azure_base_url(self@.organization, self@.project),
    {
        let mut url = owned("https://dev.azure.com/");
        url.append(self.organization.as_str());
        url.append("/");
        url.append(self.project.as_str());
        url.append("/_apis");
        url
    }

    /// The request that lists the work items assigned to the user.
    pub fn list_request(&self) -> (r: HttpRequest)
        ensures
            r@ == azure_list_request(self@),
    {
        let mut url = self.base_url();
        url.append("/wit/wiql");
        let mut query: Vec<(String, String)> = Vec::new();
        query.push(pair("api-version", "7.0"));
        let mut headers: Vec<(String, String)> = Vec::new();
        headers.push(pair("Accept", "application/json"));
        assert(pairs(query@) =~= api_version());
        assert(pairs(headers@) =~= seq![("Accept"@, "application/json"@)]);
        HttpRequest {
            method: Method::Post,
            url,
            query,
            headers,
            authorization: Authorization::Basic,
            payload: Payload::Query(
                owned(
                    "SELECT [System.Id] FROM WorkItems WHERE [System.TeamProject] = @project AND [Assigned To] = @me AND [System.Id] in (@MyRecentActivity)",
                ),
            ),
        }
    }

    /// The numbers of the work items that the reply to `list_request` lists.
    pub fn list_ticket_numbers(&self, reply: &HttpReply) -> (r: Result<Vec<u64>, UpstreamError>)
        ensures
            match r {
                Ok(ids) => azure_list_read(*reply) == Ok::<Seq<u64>, UpstreamErrorView>(ids@),
                Err(e) => azure_list_read(*reply) == Err::<Seq<u64>, UpstreamErrorView>(e@),
            },
    {
        let json = match read_json(reply) {
            Ok(j) => j,
            Err(e) => {
                return Err(e);
            },
        };
        let list = match json.get("workItems") {
            Some(w) => match w.as_list() {
                Some(list) => list,
                None => {
                    return Err(UpstreamError::other("Unexpected response format"));
                },
            },
            None => {
                return Err(UpstreamError::other("Unexpected response format"));
            },
        };
        let mut ids: Vec<u64> = Vec::new();
        let mut i: usize = 0;
        assert(list@.take(0) =~= Seq::<Json>::empty());
        while i < list.len()
            invariant
                i <= list@.len(),
                work_item_ids(list@.take(i as int)) == Some(ids@),
                azure_list_read(*reply) == match work_item_ids(list@) {
                    Some(all) => Ok::<Seq<u64>, UpstreamErrorView>(all),
                    None => Err::<Seq<u64>, UpstreamErrorView>(
                        UpstreamErrorView::Other(id_not_integer()),
                    ),
                },
            decreases list@.len() - i,
        {
            proof {
                let cur = list@.take(i + 1);
                assert(cur.drop_last() =~= list@.take(i as int));
                assert(cur.last() == list@[i as int]);
            }
            match read_work_item_id(&list[i]) {
                Some(id) => {
                    ids.push(id);
                },
                None => {
                    proof {
                        lemma_ids_missing(list@, i as int);
                    }
                    return Err(UpstreamError::other("Got ID that is not an integer!"));
                },
            }
            i += 1;
        }
        assert(list@.take(list@.len() as int) =~= list@);
        Ok(ids)
    }

    /// The request for the details of the work items with the given numbers.
    pub fn details_request(&self, ids: &[u64]) -> (r: HttpRequest)
        ensures
            r@ == azure_details_request(self@, ids@),
    {
        let mut url = self.base_url();
        url.append("/wit/workitemsbatch");
        let mut query: Vec<(String, String)> = Vec::new();
        query.push(pair("api-version", "7.0"));
        let mut fields: Vec<String> = Vec::new();
        fields.push(owned("System.Title"));
        fields.push(owned("System.Description"));
        let headers: Vec<(String, String)> = Vec::new();
        assert(pairs(query@) =~= api_version());
        assert(pairs(headers@) =~= Seq::<(Seq<char>, Seq<char>)>::empty());
        assert(texts(fields@) =~= ticket_fields());
        HttpRequest {
            method: Method::Post,
            url,
            query,
            headers,
            authorization: Authorization::Basic,
            payload: Payload::WorkItemsBatch { ids: vstd::slice::slice_to_vec(ids), fields },
        }
    }

    /// The tickets that the reply to `details_request` holds.
    pub fn get_ticket_details(&self, reply: &HttpReply) -> (r: Result<Vec<Ticket>, UpstreamError>)
        ensures
            match r {
                Ok(tickets) => azure_details_read(*reply) == Ok::<
                    Seq<TicketView>,
                    UpstreamErrorView,
                >(ticket_views(tickets@)),
                Err(e) => azure_details_read(*reply) == Err::<Seq<TicketView>, UpstreamErrorView>(
                    e@,
                ),
            },
    {
        let json = match read_json(reply) {
            Ok(j) => j,
            Err(e) => {
                return Err(e);
            },
        };
        let list = match json.get("value") {
            Some(w) => match w.as_list() {
                Some(list) => list,
                None => {
                    return Err(UpstreamError::other("Unexpected response format"));
                },
            },
            None => {
                return Err(UpstreamError::other("Unexpected response format"));
            },
        };
        let mut tickets: Vec<Ticket> = Vec::new();
        let mut i: usize = 0;
        assert(list@.take(0) =~= Seq::<Json>::empty());
        assert(ticket_views(tickets@) =~= Seq::<TicketView>::empty());
        while i < list.len()
            invariant
                i <= list@.len(),
                work_item_tickets(list@.take(i as int)) == Ok::<
                    Seq<TicketView>,
                    UpstreamErrorView,
                >(ticket_views(tickets@)),
                azure_details_read(*reply) == work_item_tickets(list@),
            decreases list@.len() - i,
        {
            proof {
                let cur = list@.take(i + 1);
                assert(cur.drop_last() =~= list@.take(i as int));
                assert(cur.last() == list@[i as int]);
            }
            match read_work_item(&list[i]) {
                Ok(t) => {
                    let ghost before = ticket_views(tickets@);
                    tickets.push(t);
                    assert(ticket_views(tickets@) =~= before.push(t@));
                },
                Err(e) => {
                    proof {
                        lemma_tickets_failed(list@, i as int);
                    }
                    return Err(e);
                },
            }
            i += 1;
        }
        assert(list@.take(list@.len() as int) =~= list@);
        Ok(tickets)
    }
}

/// From which place on numbers and tickets are paired.
pub open spec fn paired(ids: Seq<u64>, tickets: Seq<TicketView>) -> Seq<
    (u64, (Seq<char>, Seq<char>)),
> {
    Seq::new(
        if ids.len() <= tickets.len() {
            ids.len()
        } else {
            tickets.len()
        },
        |i: int| (ids[i], (tickets[i].title, tickets[i].text)),
    )
}

/// Number, title and description of each pair, as characters.
pub open spec fn pair_views(v: Seq<(u64, (String, String))>) -> Seq<(u64, (Seq<char>, Seq<char>))> {
    Seq::new(v.len(), |i: int| (v[i].0, (v[i].1.0@, v[i].1.1@)))
}

/// A work item without a number leaves the whole list without numbers.
proof fn lemma_ids_missing(list: Seq<Json>, i: int)
    requires
        0 <= i < list.len(),
        work_item_id(list[i]) is None,
    ensures
        work_item_ids(list) is None,
    decreases list.len(),
{
    if i < list.len() - 1 {
        lemma_ids_missing(list.drop_last(), i);
    }
}

/// The error of the first work item that stands for no ticket is the error
/// of the whole list.
proof fn lemma_tickets_failed(list: Seq<Json>, i: int)
    requires
        0 <= i < list.len(),
        work_item_tickets(list.take(i)) is Ok,
        work_item_ticket(list[i]) is Err,
    ensures
        work_item_tickets(list) == Err::<Seq<TicketView>, UpstreamErrorView>(
            work_item_ticket(list[i])->Err_0,
        ),
    decreases list.len(),
{
    if i < list.len() - 1 {
        assert(list.drop_last().take(i) =~= list.take(i));
        lemma_tickets_failed(list.drop_last(), i);
    } else {
        assert(list.drop_last() =~= list.take(i));
    }
}

} // verus!
