//! JSON documents as plain values, and their passage to and from text.
//!
//! Reading and writing JSON text is left to `serde_json`. This module holds
//! the document type that the rest of the library works on, and the few
//! functions that call `serde_json`, whose contracts are taken on trust.

use serde_json::Value;
use vstd::prelude::*;

verus! {

/// A JSON document.
///
/// A number is held as `Unsigned` when it is a non-negative integer below
/// 2^64, as `Signed` when it is a negative integer from -2^63 on, and as
/// `Real`, by its text, otherwise. The members of an object keep their
/// order.
#[derive(Debug, PartialEq, Eq)]
pub enum Json {
    Null,
    Bool(bool),
    Unsigned(u64),
    Signed(i64),
    Real(String),
    Text(String),
    Array(Vec<Json>),
    Object(Vec<(String, Json)>),
}

/// The mathematical content of a [`Json`] document.
pub enum JsonView {
    Null,
    Bool(bool),
    Unsigned(u64),
    Signed(i64),
    Real(Seq<char>),
    Text(Seq<char>),
    Array(Seq<JsonView>),
    Object(Seq<(Seq<char>, JsonView)>),
}

/// The content of a document, level by level.
pub open spec fn json_view(doc: Json) -> JsonView
    decreases doc,
{
    match doc {
        Json::Null => JsonView::Null,
        Json::Bool(flag) => JsonView::Bool(flag),
        Json::Unsigned(number) => JsonView::Unsigned(number),
        Json::Signed(number) => JsonView::Signed(number),
        Json::Real(text) => JsonView::Real(text@),
        Json::Text(text) => JsonView::Text(text@),
        Json::Array(items) => JsonView::Array(
            Seq::new(
                items@.len(),
                |i: int|
                    if 0 <= i < items@.len() {
                        json_view(items@[i])
                    } else {
                        JsonView::Null
                    },
            ),
        ),
        Json::Object(members) => JsonView::Object(
            Seq::new(
                members@.len(),
                |i: int|
                    if 0 <= i < members@.len() {
                        (members@[i].0@, json_view(members@[i].1))
                    } else {
                        (Seq::empty(), JsonView::Null)
                    },
            ),
        ),
    }
}

impl View for Json {
    type V = JsonView;

    open spec fn view(&self) -> JsonView {
        json_view(*self)
    }
}

/// Whether every number in a document is an integer held as `Unsigned` or
/// `Signed`.
pub open spec fn integral(doc: JsonView) -> bool
    decreases doc,
{
    match doc {
        JsonView::Real(_) => false,
        JsonView::Array(items) => forall|i: int| 0 <= i < items.len() ==> integral(#[trigger] items[i]),
        JsonView::Object(members) => forall|i: int|
            0 <= i < members.len() ==> integral((#[trigger] members[i]).1),
        _ => true,
    }
}

/// The views of the members of an object.
pub open spec fn members_view(members: Seq<(String, Json)>) -> Seq<(Seq<char>, JsonView)> {
    Seq::new(members.len(), |i: int| (members[i].0@, members[i].1@))
}

/// The view of an object is made of the views of its members.
pub proof fn lemma_object_view(members: Vec<(String, Json)>)
    ensures
        Json::Object(members)@ == JsonView::Object(members_view(members@)),
{
    let doc = Json::Object(members);
    assert(doc@->Object_0 =~= members_view(members@));
}

/// `serde_json::Value`, of which nothing is known here.
#[verifier::external_type_specification]
#[verifier::external_body]
pub struct ExValue(serde_json::Value);

/// `serde_json::Error`, of which nothing is known here.
#[verifier::external_type_specification]
#[verifier::external_body]
pub struct ExJsonError(serde_json::Error);

/// The document that `serde_json` reads from a text, where it reads one.
pub uninterp spec fn json_parse(text: Seq<char>) -> Option<JsonView>;

/// The indented text that `serde_json` writes for a document, where it
/// writes one.
pub uninterp spec fn json_text(doc: JsonView) -> Option<Seq<char>>;

/// Turns a `serde_json::Value` into a [`Json`], variant by variant, the
/// members of an object in the order in which `serde_json` holds them. Of
/// a number it takes `Number::as_u64`, else `Number::as_i64`, else the text
/// that `serde_json` writes for it. Nothing is claimed of the outcome; only
/// [`parse_document`] calls it.
#[verifier::external_body]
fn document_of(value: &Value) -> Json {
    match value {
        Value::Null => Json::Null,
        Value::Bool(flag) => Json::Bool(*flag),
        Value::Number(number) => match (number.as_u64(), number.as_i64()) {
            (Some(u), _) => Json::Unsigned(u),
            (_, Some(i)) => Json::Signed(i),
            _ => Json::Real(number.to_string()),
        },
        Value::String(text) => Json::Text(text.clone()),
        Value::Array(items) => Json::Array(items.iter().map(document_of).collect()),
        Value::Object(map) => Json::Object(map.iter().map(|(k, v)| (k.clone(), document_of(v))).collect()),
    }
}

/// Turns a [`Json`] into a `serde_json::Value`, variant by variant: the
/// integers with `Value::from`, the members of an object collected into a
/// `serde_json::Map`. A `Real` has no counterpart that could be made from
/// its text without reading it; `requires` leaves it out, and its arm is
/// never reached. Nothing is claimed of the outcome; only
/// [`render_document`] calls it.
#[verifier::external_body]
fn value_of(doc: &Json) -> Value
    requires
        integral(doc@),
{
    match doc {
        Json::Null => Value::Null,
        Json::Real(_) => Value::Null, // left out by `requires`
        Json::Bool(flag) => Value::Bool(*flag),
        Json::Unsigned(number) => Value::from(*number),
        Json::Signed(number) => Value::from(*number),
        Json::Text(text) => Value::String(text.clone()),
        Json::Array(items) => Value::Array(items.iter().map(value_of).collect()),
        Json::Object(members) => Value::Object(members.iter().map(|(k, v)| (k.clone(), value_of(v))).collect()),
    }
}

/// Reads a text as JSON with `serde_json::from_str`, and hands the outcome
/// on as a [`Json`]. The contract only names the outcome: the same text
/// always gives the same document, or always fails.
#[verifier::external_body]
pub(crate) fn parse_document(text: &str) -> (parsed: Result<Json, serde_json::Error>)
    ensures
        parsed is Ok <==> json_parse(text@) is Some,
        parsed matches Ok(doc) ==> json_parse(text@) == Some(doc@),
{
    serde_json::from_str::<Value>(text).map(|value| document_of(&value))
}

/// Writes a document as indented JSON with `serde_json::to_string_pretty`.
/// The document may hold no `Real`. The contract only names the outcome:
/// the same document always gives the same text, or always fails. What the
/// text reads back as is for the caller to test.
#[verifier::external_body]
pub(crate) fn render_document(doc: &Json) -> (rendered: Result<String, serde_json::Error>)
    requires
        integral(doc@),
    ensures
        rendered is Ok <==> json_text(doc@) is Some,
        rendered matches Ok(text) ==> json_text(doc@) == Some(text@),
{
    serde_json::to_string_pretty(&value_of(doc))
}

} // verus!
