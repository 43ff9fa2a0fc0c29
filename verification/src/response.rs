//! The record that the resolver answers with, the two shapes of an answer,
//! and how each is written as a JSON document.

use crate::json::{insert_member, json_of, list, no_members, object, text, Json};
use serde_json::Value;
use vstd::prelude::*;

verus! {

/// One record of an answer.
#[derive(Debug, Clone, PartialEq, Eq)]
pub struct Response {
    pub id: String,
    pub version: String,
}

/// What a [`Response`] holds.
pub struct ResponseView {
    pub id: Seq<char>,
    pub version: Seq<char>,
}

impl View for Response {
    type V = ResponseView;

    open spec fn view(&self) -> ResponseView {
        ResponseView { id: self.id@, version: self.version@ }
    }
}

impl ResponseView {
    /// The record that stands in for real data: its `id` is `1`, its `version`
    /// is `version`.
    pub open spec fn placeholder() -> ResponseView {
        ResponseView { id: "1"@, version: "version"@ }
    }

    /// The record that a JSON document holds in its string members `id` and
    /// `version`; `None` where one of them is missing or is no string.
    pub open spec fn read(document: Json) -> Option<ResponseView> {
        match (document.member("id"@), document.member("version"@)) {
            (Json::Text(id), Json::Text(version)) => Some(ResponseView { id, version }),
            _ => None,
        }
    }

    /// The record as a JSON object: a member `id` and a member `version`, both
    /// strings, and no other member.
    pub open spec fn json(self) -> Json {
        Json::Object(
            Map::empty().insert("id"@, Json::Text(self.id)).insert(
                "version"@,
                Json::Text(self.version),
            ),
        )
    }
}

/// A record written as JSON and read again is the record it was.
pub proof fn lemma_read_written(response: ResponseView)
    ensures
        ResponseView::read(response.json()) == Some(response),
{
    reveal_strlit("id");
    reveal_strlit("version");
    assert("id"@.len() == 2);
    assert("version"@.len() == 7);
}

impl Response {
    /// Builds the placeholder record.
    pub fn placeholder() -> (response: Response)
        ensures
            response@ == ResponseView::placeholder(),
    {
        Response { id: "1".to_owned(), version: "version".to_owned() }
    }

    /// Writes the record as a JSON object.
    pub fn to_json(&self) -> (document: Value)
        ensures
            json_of(document) == self@.json(),
    {
        let mut members = no_members();
        insert_member(&mut members, "id".to_owned(), text(self.id.as_str()));
        insert_member(&mut members, "version".to_owned(), text(self.version.as_str()));
        object(members)
    }
}

/// An answer of the resolver: one record, or a list of records.
#[derive(Debug, Clone, PartialEq, Eq)]
pub enum Reply {
    Single(Response),
    List(Vec<Response>),
}

/// What a [`Reply`] holds.
pub enum ReplyView {
    Single(ResponseView),
    List(Seq<ResponseView>),
}

impl View for Reply {
    type V = ReplyView;

    open spec fn view(&self) -> ReplyView {
        match self {
            Reply::Single(response) => ReplyView::Single(response@),
            Reply::List(responses) => ReplyView::List(
                responses@.map_values(|response: Response| response@),
            ),
        }
    }
}

impl ReplyView {
    /// The answer as a JSON document: a single record is the record's object,
    /// a list is the array of the records' objects in the same order.
    pub open spec fn json(self) -> Json {
        match self {
            ReplyView::Single(response) => response.json(),
            ReplyView::List(responses) => Json::List(
                responses.map_values(|response: ResponseView| response.json()),
            ),
        }
    }
}

impl Reply {
    /// Writes the answer as a JSON document.
    pub fn to_json(&self) -> (document: Value)
        ensures
            json_of(document) == self@.json(),
    {
        match self {
            Reply::Single(response) => response.to_json(),
            Reply::List(responses) => {
                let mut items: Vec<Value> = Vec::new();
                let mut next: usize = 0;
                while next < responses.len()
                    invariant
                        next <= responses.len(),
                        items.len() == next,
                        forall|i: int|
                            0 <= i < next ==> json_of(#[trigger] items[i]) == responses[i]@.json(),
                    decreases responses.len() - next,
                {
                    items.push(responses[next].to_json());
                    next += 1;
                }
                assert(items@.map_values(|item: Value| json_of(item)) =~= responses@.map_values(
                    |response: Response| response@,
                ).map_values(|response: ResponseView| response.json()));
                list(items)
            },
        }
    }
}

} // verus!
