//! JSON documents as the library sees them: a tree of plain values, read
//! from text by `serde_json`, and the lookups the device protocol needs.

use crate::text::same_text;
use vstd::prelude::*;

verus! {

/// A JSON value. Numbers that are integers within `i64` keep their value;
/// of any other number only its presence is kept.
#[derive(Debug, PartialEq, Eq)]
pub enum Json {
    Null,
    Bool(bool),
    Int(i64),
    Real,
    Str(String),
    Array(Vec<Json>),
    Object(Vec<JsonField>),
}

/// One member of a JSON object.
#[derive(Debug, PartialEq, Eq)]
pub struct JsonField {
    pub key: String,
    pub value: Json,
}

/// `serde_json::Value`, carried through without a look inside.
#[verifier::external_type_specification]
#[verifier::external_body]
pub struct ExJsonValue(serde_json::Value);

/// `serde_json::Error`, carried through without a look inside.
#[verifier::external_type_specification]
#[verifier::external_body]
pub struct ExJsonError(serde_json::Error);

/// The tree that a `serde_json::Value` holds, member by member.
pub uninterp spec fn json_tree(value: serde_json::Value) -> Json;

/// The document that `serde_json` reads from a text, or `None` where it
/// rejects the text.
pub uninterp spec fn json_document(text: Seq<char>) -> Option<Json>;

/// The JSON string literal that `serde_json` writes for a text: the text in
/// double quotes, with the escapes that JSON asks for.
pub uninterp spec fn json_quoted(text: Seq<char>) -> Seq<char>;

/// Calls `serde_json::from_str` for a `serde_json::Value`. Trusted: the
/// call succeeds exactly on the texts that `json_document` accepts, and the
/// value then holds that document.
#[verifier::external_body]
fn value_from_str(text: &str) -> (r: Result<serde_json::Value, serde_json::Error>)
    ensures
        r is Ok <==> json_document(text@) is Some,
        r matches Ok(value) ==> json_document(text@) == Some(json_tree(value)),
{
    serde_json::from_str::<serde_json::Value>(text)
}

/// Moves the contents of a `serde_json::Value` into a `Json`, variant by
/// variant: a number goes through `Number::as_i64`, the members of an object
/// come in the order in which `serde_json::Map` hands them out. Trusted: the
/// result is the tree that the value holds.
#[verifier::external_body]
fn json_from_value(value: serde_json::Value) -> (r: Json)
    ensures
        r == json_tree(value),
{
    match value {
        serde_json::Value::Null => Json::Null,
        serde_json::Value::Bool(b) => Json::Bool(b),
        serde_json::Value::Number(n) => match n.as_i64() {
            Some(i) => Json::Int(i),
            None => Json::Real,
        },
        serde_json::Value::String(s) => Json::Str(s),
        serde_json::Value::Array(items) => Json::Array(items.into_iter().map(json_from_value).collect()),
        serde_json::Value::Object(members) => Json::Object(
            members.into_iter().map(|(key, v)| JsonField { key, value: json_from_value(v) }).collect(),
        ),
    }
}

/// Calls `serde_json::to_string` on a string slice. Trusted: the call
/// succeeds (a string always serializes, and the writer is a buffer in
/// memory) and returns the literal that `json_quoted` names.
#[verifier::external_body]
fn quote_str(text: &str) -> (r: Result<String, serde_json::Error>)
    ensures
        r is Ok,
        r matches Ok(quoted) ==> quoted@ == json_quoted(text@),
{
    serde_json::to_string(text)
}

/// Reads a JSON document from a text.
pub fn parse_json(text: &str) -> (r: Option<Json>)
    ensures
        r == json_document(text@),
{
    match value_from_str(text) {
        Ok(value) => Some(json_from_value(value)),
        Err(_) => None,
    }
}

/// Writes a text as a JSON string literal.
pub fn quote(text: &str) -> (r: String)
    ensures
        r@ == json_quoted(text@),
{
    match quote_str(text) {
        Ok(quoted) => quoted,
        Err(_) => unreached(),
    }
}

/// The value of the first member named `key` among `fields[from..]`.
pub open spec fn member_from(fields: Seq<JsonField>, key: Seq<char>, from: int) -> Option<Json>
    decreases fields.len() - from,
{
    if from < 0 || from >= fields.len() {
        None
    } else if fields[from].key@ == key {
        Some(fields[from].value)
    } else {
        member_from(fields, key, from + 1)
    }
}

impl Json {
    /// The value of the member named `key`, where this is an object that
    /// has one.
    pub open spec fn member(self, key: Seq<char>) -> Option<Json> {
        match self {
            Json::Object(fields) => member_from(fields@, key, 0),
            _ => None,
        }
    }

    /// Looks a member up by its name.
    pub fn get<'a>(&'a self, key: &str) -> (r: Option<&'a Json>)
        ensures
            r is Some <==> self.member(key@) is Some,
            r matches Some(value) ==> self.member(key@) == Some(*value),
    {
        match self {
            Json::Object(fields) => find_member(fields, key),
            _ => None,
        }
    }
}

fn find_member<'a>(fields: &'a Vec<JsonField>, key: &str) -> (r: Option<&'a Json>)
    ensures
        r is Some <==> member_from(fields@, key@, 0) is Some,
        r matches Some(value) ==> member_from(fields@, key@, 0) == Some(*value),
{
    let mut i: usize = 0;
    while i < fields.len()
        invariant
            i <= fields.len(),
            member_from(fields@, key@, 0) == member_from(fields@, key@, i as int),
        decreases fields.len() - i,
    {
        if same_text(fields[i].key.as_str(), key) {
            return Some(&fields[i].value);
        }
        i = i + 1;
    }
    None
}

} // verus!
