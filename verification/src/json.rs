//! JSON documents as values of the library, read and written by `serde_json`.
//!
//! [`JsonValue`] holds a document as a tree that verified code can take apart
//! and build. Reading a text and writing one are `serde_json`'s work; what it
//! answers is named by [`json_parse`], [`compact_json`] and [`pretty_json`].

use vstd::prelude::*;

verus! {

/// `serde_json::Value`, a document as `serde_json` holds it. Nothing of what
/// is inside is known here.
#[verifier::external_type_specification]
#[verifier::external_body]
pub struct ExJsonValue(serde_json::Value);

/// `serde_json::Number`, a number of a document. It is carried through as
/// it is.
#[verifier::external_type_specification]
#[verifier::external_body]
pub struct ExJsonNumber(serde_json::Number);

/// `serde_json::Error`, why a text was not read or a document not written.
#[verifier::external_type_specification]
#[verifier::external_body]
pub struct ExJsonError(serde_json::Error);

/// A JSON document. The members of an object are held in the order in which
/// `serde_json` keeps them.
#[derive(Debug, PartialEq)]
pub enum JsonValue {
    Null,
    Bool(bool),
    Number(serde_json::Number),
    Text(String),
    Array(Vec<JsonValue>),
    Object(Vec<(String, JsonValue)>),
}

/// A JSON document, with each text by its characters.
pub enum JsonDoc {
    Null,
    Bool(bool),
    Number(serde_json::Number),
    Text(Seq<char>),
    Array(Seq<JsonDoc>),
    Object(Seq<(Seq<char>, JsonDoc)>),
}

impl JsonValue {
    /// The document that this value holds.
    pub open spec fn model(self) -> JsonDoc
        decreases self,
    {
        match self {
            JsonValue::Null => JsonDoc::Null,
            JsonValue::Bool(b) => JsonDoc::Bool(b),
            JsonValue::Number(n) => JsonDoc::Number(n),
            JsonValue::Text(s) => JsonDoc::Text(s@),
            JsonValue::Array(items) => JsonDoc::Array(
                Seq::new(
                    items@.len(),
                    |i: int|
                        if 0 <= i < items@.len() {
                            items@[i].model()
                        } else {
                            JsonDoc::Null
                        },
                ),
            ),
            JsonValue::Object(members) => JsonDoc::Object(
                Seq::new(
                    members@.len(),
                    |i: int|
                        if 0 <= i < members@.len() {
                            (members@[i].0@, members@[i].1.model())
                        } else {
                            (Seq::empty(), JsonDoc::Null)
                        },
                ),
            ),
        }
    }
}

impl View for JsonValue {
    type V = JsonDoc;

    open spec fn view(&self) -> JsonDoc {
        self.model()
    }
}

/// The documents that a list of values holds, in order.
pub open spec fn docs_of(values: Seq<JsonValue>) -> Seq<JsonDoc> {
    values.map_values(|v: JsonValue| v@)
}

/// The document that `serde_json` reads from a text; `None` where it reads none.
pub uninterp spec fn json_parse(text: Seq<char>) -> Option<JsonDoc>;

/// The text that `serde_json` writes for a document on one line; `None` where
/// it writes none.
pub uninterp spec fn compact_json(doc: JsonDoc) -> Option<Seq<char>>;

/// The text that `serde_json` writes for a document with line breaks and
/// indentation; `None` where it writes none.
pub uninterp spec fn pretty_json(doc: JsonDoc) -> Option<Seq<char>>;

/// Turns a `serde_json::Value` into the library's value, variant by variant.
/// Nothing is stated of it.
#[verifier::external_body]
fn from_outside(value: serde_json::Value) -> JsonValue {
    match value {
        serde_json::Value::Null => JsonValue::Null,
        serde_json::Value::Bool(b) => JsonValue::Bool(b),
        serde_json::Value::Number(n) => JsonValue::Number(n),
        serde_json::Value::String(s) => JsonValue::Text(s),
        serde_json::Value::Array(items) => JsonValue::Array(
            items.into_iter().map(from_outside).collect(),
        ),
        serde_json::Value::Object(members) => JsonValue::Object(
            members.into_iter().map(|(k, v)| (k, from_outside(v))).collect(),
        ),
    }
}

/// Turns the library's value into a `serde_json::Value`, variant by variant.
/// Nothing is stated of it.
#[verifier::external_body]
fn to_outside(value: &JsonValue) -> serde_json::Value {
    match value {
        JsonValue::Null => serde_json::Value::Null,
        JsonValue::Bool(b) => serde_json::Value::Bool(*b),
        JsonValue::Number(n) => serde_json::Value::Number(n.clone()),
        JsonValue::Text(s) => serde_json::Value::String(s.clone()),
        JsonValue::Array(items) => serde_json::Value::Array(items.iter().map(to_outside).collect()),
        JsonValue::Object(members) => serde_json::Value::Object(
            members.iter().map(|(k, v)| (k.clone(), to_outside(v))).collect(),
        ),
    }
}

/// `serde_json::from_str` for a `serde_json::Value`. Believed of it: whether a
/// document is read, and which, depends on the text alone.
#[verifier::external_body]
pub(crate) fn parse_json(text: &str) -> (parsed: Result<JsonValue, serde_json::Error>)
    ensures
        match parsed {
            Ok(value) => json_parse(text@) == Some(value@),
            Err(_) => json_parse(text@) is None,
        },
{
    serde_json::from_str::<serde_json::Value>(text).map(from_outside)
}

/// `serde_json::to_string` on the value. Believed of it: whether a text is
/// written, and which, depends on the document alone.
#[verifier::external_body]
pub(crate) fn write_compact(value: &JsonValue) -> (written: Result<String, serde_json::Error>)
    ensures
        match written {
            Ok(text) => compact_json(value@) == Some(text@),
            Err(_) => compact_json(value@) is None,
        },
{
    serde_json::to_string(&to_outside(value))
}

/// `serde_json::to_string_pretty` on the value. Believed of it: whether a text
/// is written, and which, depends on the document alone.
#[verifier::external_body]
pub(crate) fn write_pretty(value: &JsonValue) -> (written: Result<String, serde_json::Error>)
    ensures
        match written {
            Ok(text) => pretty_json(value@) == Some(text@),
            Err(_) => pretty_json(value@) is None,
        },
{
    serde_json::to_string_pretty(&to_outside(value))
}

} // verus!
