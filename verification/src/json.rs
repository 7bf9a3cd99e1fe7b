//! JSON documents as values of this library.
//!
//! The grammar of JSON is left to serde_json. What it reads is turned, node by
//! node, into a [`Json`] value, and everything that is decided about a
//! document is decided on that value.

use vstd::prelude::*;

verus! {

/// A JSON document.
#[derive(Debug, PartialEq, Eq)]
pub enum Json {
    Null,
    Boolean(bool),
    /// A number: as an unsigned integer where it is written as one that
    /// sixty-four bits hold, and as the bits of the IEEE 754 binary64 number
    /// that it is read as.
    Number { unsigned: Option<u64>, binary64: Option<u64> },
    Text(String),
    Array(Vec<Json>),
    /// An object: its members, each a name and a value.
    Object(Vec<(String, Json)>),
}

/// The mathematical value of a [`Json`] document.
pub enum JsonView {
    Null,
    Boolean(bool),
    Number { unsigned: Option<u64>, binary64: Option<u64> },
    Text(Seq<char>),
    Array(Seq<JsonView>),
    Object(Seq<(Seq<char>, JsonView)>),
}

/// The views of a list of documents, in order.
pub open spec fn item_views(items: Seq<Json>) -> Seq<JsonView>
    decreases items,
{
    Seq::new(
        items.len(),
        |i: int|
            if 0 <= i < items.len() {
                items[i]@
            } else {
                arbitrary()
            },
    )
}

/// The views of the members of an object, in order.
pub open spec fn member_views(members: Seq<(String, Json)>) -> Seq<(Seq<char>, JsonView)>
    decreases members,
{
    Seq::new(
        members.len(),
        |i: int|
            if 0 <= i < members.len() {
                (members[i].0@, members[i].1@)
            } else {
                arbitrary()
            },
    )
}

impl View for Json {
    type V = JsonView;

    open spec fn view(&self) -> JsonView
        decreases self,
    {
        match self {
            Json::Null => JsonView::Null,
            Json::Boolean(flag) => JsonView::Boolean(*flag),
            Json::Number { unsigned, binary64 } => JsonView::Number {
                unsigned: *unsigned,
                binary64: *binary64,
            },
            Json::Text(text) => JsonView::Text(text@),
            Json::Array(items) => JsonView::Array(item_views(items@)),
            Json::Object(members) => JsonView::Object(member_views(members@)),
        }
    }
}

/// A parsed document of serde_json.
#[verifier::external_type_specification]
#[verifier::external_body]
pub struct ExValue(serde_json::Value);

/// The document that a `serde_json::Value` holds.
pub uninterp spec fn value_json(value: serde_json::Value) -> JsonView;

/// The document that serde_json reads out of a text, or nothing where it
/// turns the text down: because the text is not one JSON document, or because
/// the document is nested more deeply than serde_json follows.
pub uninterp spec fn json_text(text: Seq<char>) -> Option<JsonView>;

/// Calls `serde_json::from_str` for a `serde_json::Value`. The value it gives
/// holds the document of the text; it gives none where it reports an error.
#[verifier::external_body]
fn parse_value(text: &str) -> (value: Option<serde_json::Value>)
    ensures
        match value {
            Some(parsed) => json_text(text@) == Some(value_json(parsed)),
            None => json_text(text@) is None,
        },
{
    serde_json::from_str::<serde_json::Value>(text).ok()
}

/// Turns a `serde_json::Value` into a [`Json`], variant by variant. Of a
/// number it keeps what `Number::as_u64` gives and the bits of what
/// `Number::as_f64` gives; of an object the members in the order in which
/// the map hands them out.
#[verifier::external_body]
fn json_of_value(value: &serde_json::Value) -> (json: Json)
    ensures
        json@ == value_json(*value),
{
    match value {
        serde_json::Value::Null => Json::Null,
        serde_json::Value::Bool(flag) => Json::Boolean(*flag),
        serde_json::Value::Number(n) => Json::Number { unsigned: n.as_u64(), binary64: n.as_f64().map(|x| x.to_bits()) },
        serde_json::Value::String(text) => Json::Text(text.clone()),
        serde_json::Value::Array(items) => Json::Array(items.iter().map(json_of_value).collect()),
        serde_json::Value::Object(map) => Json::Object(map.iter().map(|(name, member)| (name.clone(), json_of_value(member))).collect()),
    }
}

/// Reads one JSON document out of `text`.
pub fn parse(text: &str) -> (document: Option<Json>)
    ensures
        match document {
            Some(json) => json_text(text@) == Some(json@),
            None => json_text(text@) is None,
        },
{
    match parse_value(text) {
        Some(value) => Some(json_of_value(&value)),
        None => None,
    }
}

} // verus!
