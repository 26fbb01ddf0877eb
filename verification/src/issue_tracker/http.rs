//! Requests to a tracker and its replies, as plain values.
//!
//! The crate describes what is to be sent and reads what came back; sending
//! is the caller's part.

use vstd::prelude::*;
use crate::issue_tracker::{UpstreamError, UpstreamErrorView};
use crate::json::{json_document, parse_json, Json};
use crate::text::{owned, texts};

verus! {

#[derive(Clone, Copy, Debug, PartialEq, Eq)]
pub enum Method {
    Get,
    Post,
}

/// How the credential goes with a request.
#[derive(Clone, Copy, Debug, PartialEq, Eq)]
pub enum Authorization {
    /// Not at all.
    Anonymous,
    /// As a bearer token.
    Bearer,
    /// As the password of basic authentication, with an empty user name.
    Basic,
}

/// What a request carries as its JSON body.
#[derive(Debug)]
pub enum Payload {
    Empty,
    /// An object with the member `query`.
    Query(String),
    /// An object with the members `ids` and `fields`.
    WorkItemsBatch { ids: Vec<u64>, fields: Vec<String> },
}

/// A request to a tracker.
#[derive(Debug)]
pub struct HttpRequest {
    pub method: Method,
    pub url: String,
    /// The parameters of the query string, in order.
    pub query: Vec<(String, String)>,
    /// The headers, in order, but for the one that carries the credential.
    pub headers: Vec<(String, String)>,
    pub authorization: Authorization,
    pub payload: Payload,
}

pub enum PayloadView {
    Empty,
    Query(Seq<char>),
    WorkItemsBatch { ids: Seq<u64>, fields: Seq<Seq<char>> },
}

impl View for Payload {
    type V = PayloadView;

    open spec fn view(&self) -> PayloadView {
        match self {
            Payload::Empty => PayloadView::Empty,
            Payload::Query(q) => PayloadView::Query(q@),
            Payload::WorkItemsBatch { ids, fields } => PayloadView::WorkItemsBatch {
                ids: ids@,
                fields: texts(fields@),
            },
        }
    }
}

/// A request, as plain values.
pub struct HttpRequestView {
    pub method: Method,
    pub url: Seq<char>,
    pub query: Seq<(Seq<char>, Seq<char>)>,
    pub headers: Seq<(Seq<char>, Seq<char>)>,
    pub authorization: Authorization,
    pub payload: PayloadView,
}

impl View for HttpRequest {
    type V = HttpRequestView;

    open spec fn view(&self) -> HttpRequestView {
        HttpRequestView {
            method: self.method,
            url: self.url@,
            query: pairs(self.query@),
            headers: pairs(self.headers@),
            authorization: self.authorization,
            payload: self.payload@,
        }
    }
}

/// The views of a sequence of requests.
pub open spec fn request_views(requests: Seq<HttpRequest>) -> Seq<HttpRequestView> {
    Seq::new(requests.len(), |i: int| requests[i]@)
}

/// What came of sending a request.
#[derive(Debug)]
pub enum HttpReply {
    /// The request did not get through; the reason.
    Failed(String),
    /// The tracker answered.
    Response { status: u16, body: Vec<u8> },
}

/// The status with which a tracker refuses a credential.
pub const UNAUTHORIZED: u16 = 401;

/// Name and value of each pair, as characters.
pub open spec fn pairs(v: Seq<(String, String)>) -> Seq<(Seq<char>, Seq<char>)> {
    Seq::new(v.len(), |i: int| (v[i].0@, v[i].1@))
}

/// A pair of owned strings.
pub fn pair(name: &str, value: &str) -> (r: (String, String))
    ensures
        r.0@ == name@,
        r.1@ == value@,
{
    (owned(name), owned(value))
}

/// The document in a reply: a request that did not get through is a
/// transport error, a refused credential an authentication error, and a body
/// that is no JSON an error of the kind `Other` with the parser's words.
pub open spec fn reply_json(reply: HttpReply) -> Result<Json, UpstreamErrorView> {
    match reply {
        HttpReply::Failed(reason) => Err(UpstreamErrorView::Io(reason@)),
        HttpReply::Response { status, body } => if status == UNAUTHORIZED {
            Err(UpstreamErrorView::Authentication)
        } else {
            match json_document(body@) {
                Ok(j) => Ok(j),
                Err(m) => Err(UpstreamErrorView::Other(m)),
            }
        },
    }
}

/// Reads the document in a reply.
pub fn read_json(reply: &HttpReply) -> (r: Result<Json, UpstreamError>)
    ensures
        match r {
            Ok(j) => reply_json(*reply) == Ok::<Json, UpstreamErrorView>(j),
            Err(e) => reply_json(*reply) == Err::<Json, UpstreamErrorView>(e@),
        },
{
    match reply {
        HttpReply::Failed(reason) => Err(UpstreamError::Io(reason.clone())),
        HttpReply::Response { status, body } => {
            if *status == UNAUTHORIZED {
                return Err(UpstreamError::Authentication);
            }
            match parse_json(body) {
                Ok(j) => Ok(j),
                Err(m) => Err(UpstreamError::Other(m)),
            }
        },
    }
}

} // verus!
