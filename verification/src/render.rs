//! JSON documents as text, by way of `serde_json`.

use serde_json::{Number, Value};
use vstd::prelude::*;
use vstd::utf8::encode_utf8;

use crate::json::{Json, JsonTree};
use crate::readable::{is_readable, most_levels};

verus! {

/// `serde_json::Value`, carried from the conversion to the printer.
#[verifier::external_type_specification]
#[verifier::external_body]
pub struct ExValue(serde_json::Value);

/// The `serde_json` value that holds a document.
pub uninterp spec fn serde_value(document: JsonTree) -> Value;

/// What `serde_json::to_string_pretty` writes, if it succeeds.
pub uninterp spec fn pretty_text(value: Value) -> Option<Seq<char>>;

/// The indented text of a document, nothing where the printer fails.
pub open spec fn indented(document: JsonTree) -> Seq<char> {
    match pretty_text(serde_value(document)) {
        Some(text) => text,
        None => seq![],
    }
}

/// What `serde_json::from_slice` reads from bytes, if they are the text of a
/// document.
pub uninterp spec fn read_value(bytes: Seq<u8>) -> Option<Value>;

/// The document that a `serde_json` value holds.
pub uninterp spec fn value_tree(value: Value) -> JsonTree;

/// The document that bytes are the text of.
pub open spec fn read_tree(bytes: Seq<u8>) -> Option<JsonTree> {
    match read_value(bytes) {
        Some(value) => Some(value_tree(value)),
        None => None,
    }
}

/// The text is that of an object, and the document is read back from it.
pub open spec fn reads_back(document: JsonTree, text: Seq<char>) -> bool {
    &&& document is Object
    &&& text.len() > 0 && text[0] == '{'
    &&& read_value(encode_utf8(text)) == Some(serde_value(document))
}

/// There is a text, and it starts with a brace.
pub open spec fn opens_object(text: Option<String>) -> bool {
    match text {
        Some(s) => s@.len() > 0 && s@[0] == '{',
        None => false,
    }
}

/// There is a text, and the value is read from it.
pub open spec fn is_read_as(text: Option<String>, value: Value) -> bool {
    match text {
        Some(s) => read_value(encode_utf8(s@)) == Some(value),
        None => false,
    }
}

/// The variants of `serde_json::Value`, one for each kind of document; a decimal
/// goes through `serde_json::Number::from_f64`. The value depends on the document
/// alone.
#[verifier::external_body]
fn to_value(document: &Json) -> (value: Value)
    ensures
        value == serde_value(document@),
{
    match document {
        Json::Null => Value::Null,
        Json::Bool(b) => Value::from(*b),
        Json::Unsigned(n) => Value::from(*n),
        Json::Signed(n) => Value::from(*n),
        Json::Decimal(s) => s.parse().ok().and_then(Number::from_f64).into(),
        Json::Text(s) => Value::from(s.as_str()),
        Json::Array(items) => items.iter().map(to_value).collect(),
        Json::Object(entries) => entries.iter().map(|(k, v)| (k.clone(), to_value(v))).collect(),
    }
}

/// The variants of `serde_json::Value`, one for each kind of document. The
/// document depends on the value alone and gives the value back.
#[verifier::external_body]
fn from_value(value: &Value) -> (document: Json)
    ensures
        document@ == value_tree(*value),
        serde_value(document@) == *value,
{
    match value {
        Value::Null => Json::Null,
        Value::Bool(b) => Json::Bool(*b),
        Value::Number(n) => match (n.as_u64(), n.as_i64()) {
            (Some(n), _) => Json::Unsigned(n),
            (None, Some(n)) => Json::Signed(n),
            (None, None) => Json::Decimal(n.to_string()),
        },
        Value::String(s) => Json::Text(s.clone()),
        Value::Array(items) => Json::Array(items.iter().map(from_value).collect()),
        Value::Object(map) => {
            Json::Object(map.iter().map(|(k, v)| (k.clone(), from_value(v))).collect())
        },
    }
}

/// `serde_json::to_string_pretty`. The text depends on the value alone. That of
/// an object starts with a brace, and from that of a readable document
/// `serde_json::from_slice` reads the same value. The rest of the layout is not
/// stated.
#[verifier::external_body]
fn to_string_pretty(value: &Value) -> (text: Option<String>)
    ensures
        match text {
            Some(s) => pretty_text(*value) == Some(s@),
            None => pretty_text(*value) is None,
        },
        forall|document: JsonTree|
            *value == #[trigger] serde_value(document) && document is Object ==> opens_object(text),
        forall|document: JsonTree|
            *value == #[trigger] serde_value(document) && is_readable(document, most_levels())
                ==> is_read_as(text, *value),
{
    serde_json::to_string_pretty(value).ok()
}

/// `serde_json::from_slice`. What is read depends on the bytes alone; which
/// bytes are the text of which document is not stated but for the texts that
/// `to_string_pretty` writes.
#[verifier::external_body]
fn from_slice(bytes: &Vec<u8>) -> (value: Option<Value>)
    ensures
        value == read_value(bytes@),
{
    serde_json::from_slice(bytes).ok()
}

/// The indented text of a document. That of an object starts with a brace, and
/// that of a readable document reads back as the document.
pub fn pretty(document: &Json) -> (text: String)
    ensures
        text@ == indented(document@),
        document@ is Object ==> text@.len() > 0 && text@[0] == '{',
        is_readable(document@, most_levels()) ==> read_value(encode_utf8(text@)) == Some(
            serde_value(document@),
        ),
{
    let value = to_value(document);
    match to_string_pretty(&value) {
        Some(text) => text,
        None => String::new(),
    }
}

/// The document that bytes are the text of.
pub fn read(bytes: &Vec<u8>) -> (document: Option<Json>)
    ensures
        match document {
            Some(document) => read_tree(bytes@) == Some(document@),
            None => read_tree(bytes@) is None,
        },
{
    match from_slice(bytes) {
        Some(value) => Some(from_value(&value)),
        None => None,
    }
}

/// The `serde_json` value that holds a document.
pub fn value_of(document: &Json) -> (value: Value)
    ensures
        value == serde_value(document@),
{
    to_value(document)
}

/// The document that a `serde_json` value holds. It gives the value back.
pub fn document_of(value: &Value) -> (document: Json)
    ensures
        document@ == value_tree(*value),
        serde_value(document@) == *value,
{
    from_value(value)
}

} // verus!
