//! JSON documents, as far as the trackers' answers are read.

use vstd::prelude::*;
use crate::text::same_text;

verus! {

/// `serde_json::Value`, the tree that `serde_json` reads a document into.
#[verifier::external_type_specification]
#[verifier::external_body]
pub struct ExValue(serde_json::Value);

/// A JSON document.
#[derive(Debug)]
pub enum Json {
    Null,
    Bool(bool),
    /// A number, with its value where it is a whole number from 0 to 2^64 - 1.
    Number(Option<u64>),
    Text(String),
    List(Vec<Json>),
    /// The members of an object: each name once, with its value.
    Object(Vec<(String, Json)>),
}

/// What `serde_json::from_slice` reads from bytes: the document, or the text
/// of its error.
pub uninterp spec fn json_document(bytes: Seq<u8>) -> Result<Json, Seq<char>>;

/// The document that a `serde_json::Value` holds.
pub uninterp spec fn json_tree(value: &serde_json::Value) -> Json;

/// Reads bytes as a JSON document.
///
/// Trusted: calls `serde_json::from_slice` for a `serde_json::Value`, and
/// takes the text of its error. Nothing is claimed of the result but that it
/// is what that function gives for these bytes.
#[verifier::external_body]
fn read_value(bytes: &Vec<u8>) -> (r: Result<serde_json::Value, String>)
    ensures
        match r {
            Ok(v) => json_document(bytes@) == Ok::<Json, Seq<char>>(json_tree(&v)),
            Err(m) => json_document(bytes@) == Err::<Json, Seq<char>>(m@),
        },
{
    match serde_json::from_slice::<serde_json::Value>(bytes.as_slice()) {
        Ok(v) => Ok(v),
        Err(e) => Err(e.to_string()),
    }
}

/// Copies a `serde_json::Value` into a [`Json`].
///
/// Trusted: tells the variants of `serde_json::Value` apart and moves what
/// each holds, a number through `serde_json::Number::as_u64`, the members of
/// an object in the order in which its map hands them out.
#[verifier::external_body]
fn json_from(value: &serde_json::Value) -> (r: Json)
    ensures
        r == json_tree(value),
{
    match value {
        serde_json::Value::Null => Json::Null,
        serde_json::Value::Bool(b) => Json::Bool(*b),
        serde_json::Value::Number(n) => Json::Number(n.as_u64()),
        serde_json::Value::String(s) => Json::Text(s.clone()),
        serde_json::Value::Array(a) => Json::List(a.iter().map(json_from).collect()),
        serde_json::Value::Object(m) => Json::Object(
            m.iter().map(|(k, v)| (k.clone(), json_from(v))).collect(),
        ),
    }
}

/// Reads bytes as a JSON document.
pub fn parse_json(bytes: &Vec<u8>) -> (r: Result<Json, String>)
    ensures
        match r {
            Ok(j) => json_document(bytes@) == Ok::<Json, Seq<char>>(j),
            Err(m) => json_document(bytes@) == Err::<Json, Seq<char>>(m@),
        },
{
    match read_value(bytes) {
        Ok(v) => Ok(json_from(&v)),
        Err(m) => Err(m),
    }
}

/// The value of the first member named `key` among `entries[from..]`.
pub open spec fn member_from(entries: Seq<(String, Json)>, key: Seq<char>, from: int) -> Option<
    Json,
>
    decreases entries.len() - from,
{
    if from < 0 || from >= entries.len() {
        None
    } else if entries[from].0@ == key {
        Some(entries[from].1)
    } else {
        member_from(entries, key, from + 1)
    }
}

/// The member named `key` of an object; none of anything else.
pub open spec fn member(j: Json, key: Seq<char>) -> Option<Json> {
    match j {
        Json::Object(entries) => member_from(entries@, key, 0),
        _ => None,
    }
}

/// The items of a list; none of anything else.
pub open spec fn items(j: Json) -> Option<Seq<Json>> {
    match j {
        Json::List(v) => Some(v@),
        _ => None,
    }
}

/// The value of a whole number from 0 to 2^64 - 1; none of anything else.
pub open spec fn number(j: Json) -> Option<u64> {
    match j {
        Json::Number(n) => n,
        _ => None,
    }
}

/// The characters of a string; none of anything else.
pub open spec fn string(j: Json) -> Option<Seq<char>> {
    match j {
        Json::Text(s) => Some(s@),
        _ => None,
    }
}

impl Json {
    /// The member named `key`, if this is an object that has one.
    pub fn get(&self, key: &str) -> (r: Option<&Json>)
        ensures
            match r {
                Some(j) => member(*self, key@) == Some(*j),
                None => member(*self, key@) is None,
            },
    {
        match self {
            Json::Object(entries) => {
                let mut i: usize = 0;
                while i < entries.len()
                    invariant
                        i <= entries@.len(),
                        member(*self, key@) == member_from(entries@, key@, 0),
                        member_from(entries@, key@, 0) == member_from(entries@, key@, i as int),
                    decreases entries@.len() - i,
                {
                    let entry = &entries[i];
                    if same_text(entry.0.as_str(), key) {
                        return Some(&entry.1);
                    }
                    i += 1;
                }
                None
            },
            _ => None,
        }
    }

    /// The items, if this is a list.
    pub fn as_list(&self) -> (r: Option<&Vec<Json>>)
        ensures
            match r {
                Some(v) => items(*self) == Some(v@),
                None => items(*self) is None,
            },
    {
        match self {
            Json::List(v) => Some(v),
            _ => None,
        }
    }

    /// The value, if this is a whole number from 0 to 2^64 - 1.
    pub fn as_u64(&self) -> (r: Option<u64>)
        ensures
            r == number(*self),
    {
        match self {
            Json::Number(n) => *n,
            _ => None,
        }
    }

    /// The characters, if this is a string.
    pub fn as_text(&self) -> (r: Option<&str>)
        ensures
            match r {
                Some(s) => string(*self) == Some(s@),
                None => string(*self) is None,
            },
    {
        match self {
            Json::Text(s) => Some(s.as_str()),
            _ => None,
        }
    }
}

} // verus!
