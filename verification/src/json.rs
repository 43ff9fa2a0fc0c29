//! JSON documents: their mathematical content, and the calls into
//! `serde_json` that read and build them.
//!
//! A `serde_json::Value` is opaque to the verifier. Contracts speak of the
//! [`Json`] that a value holds, named by [`json_of`]. The functions at the end
//! of this file are the only places where `serde_json` is called; each has a
//! contract that is taken from `serde_json`'s source and is not proved here.

use serde_json::Value;
use vstd::prelude::*;

verus! {

/// What a JSON document holds.
///
/// The members of an object form a map, so two objects with the same members
/// are the same whatever the order in which they were written. Numbers are not
/// told apart: nothing in this crate reads one.
pub enum Json {
    Null,
    Bool(bool),
    Number,
    Text(Seq<char>),
    List(Seq<Json>),
    Object(Map<Seq<char>, Json>),
}

impl Json {
    /// The member of an object under `key`; `Null` where `self` is no object
    /// or has no such member.
    pub open spec fn member(self, key: Seq<char>) -> Json {
        match self {
            Json::Object(members) => if members.contains_key(key) {
                members[key]
            } else {
                Json::Null
            },
            _ => Json::Null,
        }
    }

    /// Whether `self` is an object with a member under `key`.
    pub open spec fn has_member(self, key: Seq<char>) -> bool {
        self matches Json::Object(members) && members.contains_key(key)
    }

    /// The characters of a string; `None` for every other kind of document.
    pub open spec fn text(self) -> Option<Seq<char>> {
        match self {
            Json::Text(chars) => Some(chars),
            _ => None,
        }
    }
}

/// `serde_json::Value`, carried through as it is: what a value holds is known
/// only through [`json_of`].
#[verifier::external_type_specification]
#[verifier::external_body]
pub struct ExValue(serde_json::Value);

/// `serde_json::Map`, carried through as it is: what a map holds is known only
/// through [`members_of`].
#[verifier::external_type_specification]
#[verifier::external_body]
#[verifier::reject_recursive_types(K)]
#[verifier::reject_recursive_types(V)]
pub struct ExMembers<K, V>(serde_json::Map<K, V>);

/// The members of a JSON object, as `serde_json` holds them.
pub type Members = serde_json::Map<String, Value>;

/// The document that a `serde_json::Value` holds.
pub uninterp spec fn json_of(value: Value) -> Json;

/// The members that a `serde_json::Map` holds, each key with its document.
pub uninterp spec fn members_of(members: Members) -> Map<Seq<char>, Json>;

/// `value[key]`, the `Index<&str>` impl of `serde_json::Value`: the member
/// under `key` where `value` is an object that has one, a null otherwise. It
/// does not panic.
#[verifier::external_body]
pub(crate) fn member<'a>(value: &'a Value, key: &str) -> (found: &'a Value)
    ensures
        json_of(*found) == json_of(*value).member(key@),
{
    &value[key]
}

/// `serde_json::Value::as_str`: the string's characters where `value` is a
/// string, `None` otherwise.
#[verifier::external_body]
pub(crate) fn as_text<'a>(value: &'a Value) -> (text: Option<&'a str>)
    ensures
        match text {
            Some(chars) => json_of(*value).text() == Some(chars@),
            None => json_of(*value).text() is None,
        },
{
    value.as_str()
}

/// `Value::from(&str)`: a string document with the characters of `chars`.
#[verifier::external_body]
pub(crate) fn text(chars: &str) -> (value: Value)
    ensures
        json_of(value) == Json::Text(chars@),
{
    Value::from(chars)
}

/// `Value::from(Vec<Value>)`: an array of the given documents, in their order.
#[verifier::external_body]
pub(crate) fn list(items: Vec<Value>) -> (value: Value)
    ensures
        json_of(value) == Json::List(items@.map_values(|item: Value| json_of(item))),
{
    Value::from(items)
}

/// `serde_json::Map::new`: a map without members.
#[verifier::external_body]
pub(crate) fn no_members() -> (fresh: Members)
    ensures
        (members_of(fresh) == Map::<Seq<char>, Json>::empty()),
{
    serde_json::Map::new()
}

/// `serde_json::Map::insert`: `key` now leads to `value`, the other members
/// stay. The result is the document that `key` led to before, if any.
#[verifier::external_body]
pub(crate) fn insert_member(
    members: &mut Members,
    key: String,
    value: Value,
) -> (previous: Option<Value>)
    ensures
        members_of(*final(members)) == members_of(*old(members)).insert(key@, json_of(value)),
        match previous {
            Some(document) => members_of(*old(members)).contains_key(key@) && json_of(document)
                == members_of(*old(members))[key@],
            None => !members_of(*old(members)).contains_key(key@),
        },
{
    members.insert(key, value)
}

/// `Value::from(Map<String, Value>)`: an object with the given members.
#[verifier::external_body]
pub(crate) fn object(members: Members) -> (value: Value)
    ensures
        json_of(value) == Json::Object(members_of(members)),
{
    Value::from(members)
}

} // verus!
