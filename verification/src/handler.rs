//! The resolver itself: which field an event asks for, and the answer to it.

use crate::json::{as_text, json_of, member, Json};
use crate::response::{lemma_read_written, Reply, ReplyView, Response, ResponseView};
use crate::text::same_text;
use serde_json::Value;
use vstd::prelude::*;

verus! {

/// The field that an event asks for: the string under `fieldName` in the
/// event's member `info`. `None` where a member on the way is missing or is
/// not an object, and where `fieldName` is no string.
pub open spec fn requested_field(event: Json) -> Option<Seq<char>> {
    event.member("info"@).member("fieldName"@).text()
}

/// The characters of a field name that may be absent.
pub open spec fn field_chars(field: Option<&str>) -> Option<Seq<char>> {
    match field {
        Some(name) => Some(name@),
        None => None,
    }
}

/// The answer to a request for `field`: the placeholder record alone where the
/// field is `addDemo`, a list of that one record for any other field and for
/// none.
pub open spec fn reply_to(field: Option<Seq<char>>) -> ReplyView {
    if field == Some("addDemo"@) {
        ReplyView::Single(ResponseView::placeholder())
    } else {
        ReplyView::List(seq![ResponseView::placeholder()])
    }
}

/// The placeholder record as a JSON object.
pub open spec fn record_answer() -> Json {
    ResponseView::placeholder().json()
}

/// The JSON array whose one item is the placeholder record.
pub open spec fn list_answer() -> Json {
    Json::List(seq![record_answer()])
}

/// The JSON document that answers `event`.
pub open spec fn answer(event: Json) -> Json {
    if requested_field(event) == Some("addDemo"@) {
        record_answer()
    } else {
        list_answer()
    }
}

/// The answer to a field, written as JSON, is the record for `addDemo` and the
/// list otherwise.
pub proof fn lemma_reply_json(field: Option<Seq<char>>)
    ensures
        reply_to(field).json() == if field == Some("addDemo"@) {
            record_answer()
        } else {
            list_answer()
        },
{
    let placeholder = ResponseView::placeholder();
    assert(seq![placeholder].map_values(|response: ResponseView| response.json())
        =~= seq![placeholder.json()]);
}

/// Reads the requested field out of an event.
pub fn field_name<'a>(payload: &'a Value) -> (name: Option<&'a str>)
    ensures
        field_chars(name) == requested_field(json_of(*payload)),
{
    as_text(member(member(payload, "info"), "fieldName"))
}

/// Chooses the answer to a request for `field`.
pub fn resolve(field: Option<&str>) -> (reply: Reply)
    ensures
        reply@ == reply_to(field_chars(field)),
{
    let response = Response::placeholder();
    let single = match field {
        Some(name) => same_text(name, "addDemo"),
        None => false,
    };
    if single {
        Reply::Single(response)
    } else {
        let responses = vec![response];
        assert(responses@.map_values(|response: Response| response@)
            =~= seq![ResponseView::placeholder()]);
        Reply::List(responses)
    }
}

/// Answers one event.
///
/// The event's `info.fieldName` decides the shape of the answer; nothing else
/// in the event is read. No event is refused: one without `info`, or with
/// something else than a string for the field, gets the list.
pub fn function_handler(payload: &Value) -> (output: Value)
    ensures
        json_of(output) == answer(json_of(*payload)),
        requested_field(json_of(*payload)) == Some("addDemo"@) ==> json_of(output)
            == record_answer(),
        requested_field(json_of(*payload)) != Some("addDemo"@) ==> json_of(output)
            == list_answer(),
        !json_of(*payload).has_member("info"@) ==> json_of(output) == list_answer(),
{
    let reply = resolve(field_name(payload));
    proof {
        lemma_reply_json(requested_field(json_of(*payload)));
    }
    reply.to_json()
}

/// Answering is repeatable: the documents that the handler returns for one
/// event, on whatever calls, are the same.
pub proof fn lemma_same_event_same_answer(payload: Value, first: Value, second: Value)
    requires
        json_of(first) == answer(json_of(payload)),
        json_of(second) == answer(json_of(payload)),
    ensures
        json_of(first) == json_of(second),
{
}

/// Two events that ask for the same field get the same answer, whatever else
/// they hold.
pub proof fn lemma_answer_depends_on_field_only(first: Json, second: Json)
    requires
        requested_field(first) == requested_field(second),
    ensures
        answer(first) == answer(second),
{
}

/// Every answer is the placeholder record or a list of exactly that record,
/// and the record reads back with `id` equal to `1` and `version` equal to
/// `version`.
pub proof fn lemma_answer_reads_back(event: Json)
    ensures
        match answer(event) {
            Json::List(items) => items.len() == 1 && ResponseView::read(items[0]) == Some(
                ResponseView::placeholder(),
            ),
            record => ResponseView::read(record) == Some(ResponseView::placeholder()),
        },
{
    lemma_read_written(ResponseView::placeholder());
}

} // verus!
