//! Building JSON documents: the model of a tree, and constructors whose
//! results are known by their model.

use vstd::prelude::*;
use vstd::string::StringExecFns;
use crate::json::{JsonNumber, JsonValue};
use crate::text::{signed_decimal, signed_text};

verus! {

/// Mathematical model of a [`JsonNumber`].
pub struct NumberModel {
    pub text: Seq<char>,
    pub unsigned: Option<u64>,
    pub signed: Option<i64>,
}

/// Mathematical model of a [`JsonValue`]: the same tree over sequences.
pub enum Json {
    Null,
    Bool(bool),
    Number(NumberModel),
    Text(Seq<char>),
    Array(Seq<Json>),
    Object(Seq<(Seq<char>, Json)>),
}

/// The model of a tree.
pub open spec fn model(v: JsonValue) -> Json
    decreases v,
{
    match v {
        JsonValue::Null => Json::Null,
        JsonValue::Bool(b) => Json::Bool(b),
        JsonValue::Number(n) => Json::Number(
            NumberModel { text: n.text@, unsigned: n.unsigned, signed: n.signed },
        ),
        JsonValue::Text(s) => Json::Text(s@),
        JsonValue::Array(items) => Json::Array(
            Seq::new(
                items@.len(),
                |i: int|
                    if 0 <= i < items@.len() {
                        model(items@[i])
                    } else {
                        Json::Null
                    },
            ),
        ),
        JsonValue::Object(entries) => Json::Object(
            Seq::new(
                entries@.len(),
                |i: int|
                    if 0 <= i < entries@.len() {
                        (entries@[i].0@, model(entries@[i].1))
                    } else {
                        (Seq::empty(), Json::Null)
                    },
            ),
        ),
    }
}

/// The models of the members of an object.
pub open spec fn member_models(entries: Seq<(String, JsonValue)>) -> Seq<(Seq<char>, Json)> {
    Seq::new(entries.len(), |i: int| (entries[i].0@, model(entries[i].1)))
}

/// A string value.
pub fn text_value(s: &str) -> (r: JsonValue)
    ensures
        model(r) == Json::Text(s@),
{
    JsonValue::Text(String::from_str(s))
}

/// The model of an integer as a JSON number: its decimal text, and its value
/// as far as it fits the unsigned and the signed reading.
pub open spec fn number_model(n: int) -> Json {
    Json::Number(
        NumberModel {
            text: signed_text(n),
            unsigned: if n >= 0 {
                Some(n as u64)
            } else {
                None
            },
            signed: Some(n as i64),
        },
    )
}

/// An integer value.
pub fn number_value(n: i64) -> (r: JsonValue)
    ensures
        model(r) == number_model(n as int),
{
    JsonValue::Number(
        JsonNumber {
            text: signed_decimal(n),
            unsigned: if n >= 0 {
                Some(n as u64)
            } else {
                None
            },
            signed: Some(n),
        },
    )
}

/// A boolean value.
pub fn bool_value(b: bool) -> (r: JsonValue)
    ensures
        model(r) == Json::Bool(b),
{
    JsonValue::Bool(b)
}

/// An object with the given members.
pub fn object_value(entries: Vec<(String, JsonValue)>) -> (r: JsonValue)
    ensures
        model(r) == Json::Object(member_models(entries@)),
{
    let r = JsonValue::Object(entries);
    assert(model(r)->Object_0 =~= member_models(entries@));
    r
}

/// The members of an object that has none yet.
pub fn no_members() -> (r: Vec<(String, JsonValue)>)
    ensures
        r@.len() == 0,
        member_models(r@) == Seq::<(Seq<char>, Json)>::empty(),
{
    let r: Vec<(String, JsonValue)> = Vec::new();
    assert(member_models(r@) =~= Seq::<(Seq<char>, Json)>::empty());
    r
}

/// Appends a member to the members of an object.
pub fn put(entries: &mut Vec<(String, JsonValue)>, key: &str, value: JsonValue)
    ensures
        member_models(final(entries)@) == member_models(old(entries)@).push((key@, model(value))),
{
    entries.push((String::from_str(key), value));
    assert(member_models(entries@) =~= member_models(old(entries)@).push((key@, model(value))));
}

/// Appends a member under a computed key to the members of an object.
pub fn put_named(entries: &mut Vec<(String, JsonValue)>, key: String, value: JsonValue)
    ensures
        member_models(final(entries)@) == member_models(old(entries)@).push((key@, model(value))),
{
    entries.push((key, value));
    assert(member_models(entries@) =~= member_models(old(entries)@).push((key@, model(value))));
}

} // verus!
