//! The boundary to `serde_json`.
//!
//! A `serde_json::Value` is opaque to the verifier. What it holds is named by
//! [`json_of`], a tree of plain values; the functions at the end of this file
//! are the only places where the crate calls into `serde_json`, and their
//! contracts are believed, not proved.

use serde_json::Value;
use vstd::prelude::*;

verus! {

/// `serde_json::Value`, carried through without a look inside.
#[verifier::external_type_specification]
#[verifier::external_body]
pub struct ExValue(serde_json::Value);

/// `serde_json::Error`, carried through without a look inside.
#[verifier::external_type_specification]
#[verifier::external_body]
pub struct ExError(serde_json::Error);

/// What a JSON value holds.
///
/// A number stands as the text `serde_json` writes for it, and an object as
/// its members in the order in which `serde_json` walks them.
pub enum Json {
    Null,
    Bool(bool),
    Number(Seq<char>),
    Text(Seq<char>),
    Array(Seq<Json>),
    Object(Seq<(Seq<char>, Json)>),
}

/// The contents of a `serde_json::Value`.
pub uninterp spec fn json_of(value: serde_json::Value) -> Json;

/// What `serde_json::from_str` makes of a text: the value it parses to, or
/// `None` where it reports an error.
pub uninterp spec fn parsed_text(text: Seq<char>) -> Option<Json>;

/// What `serde_json::to_string_pretty` writes for a value, or `None` where it
/// reports an error.
pub uninterp spec fn pretty_printed(doc: Json) -> Option<Seq<char>>;

/// The contents of each value of a sequence.
pub open spec fn json_seq(values: Seq<Value>) -> Seq<Json> {
    values.map_values(|v: Value| json_of(v))
}

/// The value stored under `key` among `members`: that of the first member with
/// that key.
pub open spec fn lookup(members: Seq<(Seq<char>, Json)>, key: Seq<char>) -> Option<Json>
    decreases members.len(),
{
    if members.len() == 0 {
        None
    } else if members[0].0 == key {
        Some(members[0].1)
    } else {
        lookup(members.subrange(1, members.len() as int), key)
    }
}

/// The member `key` of `doc`, where `doc` is an object that has one.
pub open spec fn member_of(doc: Json, key: Seq<char>) -> Option<Json> {
    match doc {
        Json::Object(members) => lookup(members, key),
        _ => None,
    }
}

/// Calls `serde_json::from_str` for a `Value`. The contract only names the
/// outcome: the same text always parses to the same value or fails.
#[verifier::external_body]
pub(crate) fn parse_text(text: &str) -> (r: Result<Value, serde_json::Error>)
    ensures
        match parsed_text(text@) {
            Some(doc) => r matches Ok(v) && json_of(v) == doc,
            None => r is Err,
        },
{
    serde_json::from_str::<Value>(text)
}

/// Calls `serde_json::to_string_pretty`. The contract only names the outcome:
/// the text depends on nothing but what the value holds.
#[verifier::external_body]
pub(crate) fn pretty_text(doc: &Value) -> (r: Result<String, serde_json::Error>)
    ensures
        match pretty_printed(json_of(*doc)) {
            Some(text) => r matches Ok(s) && s@ == text,
            None => r is Err,
        },
{
    serde_json::to_string_pretty(doc)
}

/// Builds `Value::Array`: a JSON array of the given items, in their order.
#[verifier::external_body]
pub(crate) fn array_value(items: Vec<Value>) -> (r: Value)
    ensures
        json_of(r) == Json::Array(json_seq(items@)),
{
    Value::Array(items)
}

/// Collects one key and value into a `Value::Object` through `serde_json`'s
/// `FromIterator<(K, V)>`: a JSON object with that single member.
#[verifier::external_body]
pub(crate) fn object_value(key: String, member: Value) -> (r: Value)
    ensures
        json_of(r) == Json::Object(seq![(key@, json_of(member))]),
{
    Value::from_iter([(key, member)])
}

/// Takes a member out of an object with `serde_json::Map::remove`. Anything
/// but an object has no members.
#[verifier::external_body]
pub(crate) fn take_member(doc: Value, key: &str) -> (r: Option<Value>)
    ensures
        match member_of(json_of(doc), key@) {
            Some(member) => r matches Some(v) && json_of(v) == member,
            None => r is None,
        },
{
    match doc {
        Value::Object(mut members) => members.remove(key),
        _ => None,
    }
}

/// Unpacks `Value::Array` into its items. Anything but an array gives `None`.
#[verifier::external_body]
pub(crate) fn into_items(list: Value) -> (r: Option<Vec<Value>>)
    ensures
        match json_of(list) {
            Json::Array(items) => r matches Some(v) && json_seq(v@) == items,
            _ => r is None,
        },
{
    match list {
        Value::Array(items) => Some(items),
        _ => None,
    }
}

/// `Value`'s `Clone`: the copy holds what the value holds.
pub assume_specification[ <serde_json::Value as Clone>::clone ](value: &serde_json::Value) -> (r:
    serde_json::Value)
    ensures
        json_of(r) == json_of(*value),
;

/// Calls `serde_json::Value::is_object`.
#[verifier::external_body]
pub(crate) fn is_object(value: &Value) -> (r: bool)
    ensures
        r == (json_of(*value) is Object),
{
    value.is_object()
}

} // verus!
