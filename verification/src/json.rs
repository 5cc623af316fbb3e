//! A JSON document as a tree of plain values, and the parser that fills it.

use vstd::prelude::*;
use crate::error::RcError;
use serde_json::Value;
use vstd::string::StringExecFns;

verus! {

/// A JSON number: its decimal text, and its value where it is an integer that
/// fits the machine types.
#[derive(Debug, Clone, PartialEq, Eq)]
pub struct JsonNumber {
    /// The number as decimal text.
    pub text: String,
    /// The value, if the number is a non-negative integer below 2^64.
    pub unsigned: Option<u64>,
    /// The value, if the number is an integer that fits in 64 signed bits.
    pub signed: Option<i64>,
}

/// A JSON value. An object keeps its members in the order of the document.
#[derive(Debug, PartialEq, Eq)]
pub enum JsonValue {
    Null,
    Bool(bool),
    Number(JsonNumber),
    Text(String),
    Array(Vec<JsonValue>),
    Object(Vec<(String, JsonValue)>),
}

/// `serde_json::Value`, carried from the parser to the reader as it is.
#[verifier::external_type_specification]
#[verifier::external_body]
pub struct ExSerdeValue(serde_json::Value);

/// What `serde_json::from_str` makes of a text: the document's tree, or
/// `None` where the text is not one JSON document.
pub uninterp spec fn parsed_json(text: Seq<char>) -> Option<JsonValue>;

/// The tree that a `serde_json::Value` holds, variant by variant.
pub uninterp spec fn tree_of(v: Value) -> JsonValue;

/// `serde_json::from_str` at type `serde_json::Value`. The outcome depends on
/// the text alone; `parsed_json` names it, an error standing for `None`.
#[verifier::external_body]
fn parse_document(text: &str) -> (r: Option<Value>)
    ensures
        r matches Some(v) ==> parsed_json(text@) == Some(tree_of(v)),
        r is None ==> parsed_json(text@) is None,
{
    serde_json::from_str::<Value>(text).ok()
}

/// Reads a `serde_json::Value` variant by variant into a [`JsonValue`]. A
/// number is read through `Number`'s `Display`, `as_u64` and `as_i64`; the
/// members of arrays and objects in the order in which `iter` hands them out.
/// `tree_of` names the result.
#[verifier::external_body]
fn lift(v: &Value) -> (r: JsonValue)
    ensures
        r == tree_of(*v),
{
    match v {
        Value::Null => JsonValue::Null,
        Value::Bool(b) => JsonValue::Bool(*b),
        Value::Number(n) => JsonValue::Number(
            JsonNumber { text: n.to_string(), unsigned: n.as_u64(), signed: n.as_i64() },
        ),
        Value::String(s) => JsonValue::Text(s.clone()),
        Value::Array(a) => JsonValue::Array(a.iter().map(lift).collect()),
        Value::Object(m) => JsonValue::Object(
            m.iter().map(|(k, x)| (k.clone(), lift(x))).collect(),
        ),
    }
}

/// The member of `entries` that comes first under `key`.
pub open spec fn lookup(entries: Seq<(String, JsonValue)>, key: Seq<char>) -> Option<JsonValue>
    decreases entries.len(),
{
    if entries.len() == 0 {
        None
    } else if entries[0].0@ == key {
        Some(entries[0].1)
    } else {
        lookup(entries.drop_first(), key)
    }
}

/// What the text says when read as a JSON document: its tree, or
/// `MalformedResponse("JSON")`.
pub open spec fn parse_result(text: Seq<char>) -> Result<JsonValue, crate::error::Failure> {
    match parsed_json(text) {
        Some(tree) => Ok(tree),
        None => Err(crate::error::Failure::MalformedResponse("JSON"@)),
    }
}

impl JsonValue {
    /// The member under `key` if `self` is an object that has one.
    pub open spec fn field(self, key: Seq<char>) -> Option<JsonValue> {
        match self {
            JsonValue::Object(entries) => lookup(entries@, key),
            _ => None,
        }
    }

    /// Looks `key` up in an object; `None` for a missing key and for every
    /// value that is not an object.
    pub fn get(&self, key: &str) -> (r: Option<&JsonValue>)
        ensures
            match r {
                Some(v) => self.field(key@) == Some(*v),
                None => self.field(key@) is None,
            },
    {
        match self {
            JsonValue::Object(entries) => find(entries, key),
            _ => None,
        }
    }
}

/// Looks `key` up among the members of an object.
pub fn find<'a>(entries: &'a Vec<(String, JsonValue)>, key: &str) -> (r: Option<&'a JsonValue>)
    ensures
        match r {
            Some(v) => lookup(entries@, key@) == Some(*v),
            None => lookup(entries@, key@) is None,
        },
{
    let wanted = String::from_str(key);
    let mut i: usize = 0;
    assert(entries@.skip(0) == entries@);
    while i < entries.len()
        invariant
            i <= entries.len(),
            wanted@ == key@,
            lookup(entries@, key@) == lookup(entries@.skip(i as int), key@),
        decreases entries.len() - i,
    {
        if entries[i].0 == wanted {
            return Some(&entries[i].1);
        }
        assert(entries@.skip(i as int).drop_first() == entries@.skip(i as int + 1));
        i += 1;
    }
    None
}

/// Parses a text as one JSON document.
pub fn parse_json(text: &str) -> (r: Result<JsonValue, RcError>)
    ensures
        match r {
            Ok(tree) => parse_result(text@) == Ok::<JsonValue, crate::error::Failure>(tree),
            Err(e) => parse_result(text@) == Err::<JsonValue, crate::error::Failure>(e@),
        },
{
    match parse_document(text) {
        Some(v) => Ok(lift(&v)),
        None => Err(RcError::MalformedResponse(String::from_str("JSON"))),
    }
}

} // verus!
