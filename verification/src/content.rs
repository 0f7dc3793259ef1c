//! What a tool call results in: a text content that holds a document, or one
//! that reports an error.

use vstd::prelude::*;
use vstd::utf8::encode_utf8;

use crate::json::{Json, JsonTree};
use crate::readable::{is_readable, most_levels};
use crate::render;
use crate::text;

verus! {

/// A content list with one text in it.
pub open spec fn text_content(text: Seq<char>) -> JsonTree {
    JsonTree::object().with(
        "content"@,
        JsonTree::Array(
            seq![JsonTree::object().with_text("type"@, "text"@).with_text("text"@, text)],
        ),
    )
}

/// The result that holds a document, as indented JSON text.
pub open spec fn content_of(data: JsonTree) -> JsonTree {
    text_content(render::indented(data))
}

/// The result that reports an error.
pub open spec fn error_of(message: Seq<char>) -> JsonTree {
    text_content("Error: "@ + message).with("isError"@, JsonTree::Bool(true))
}

/// What a tool comes to: the document to show, or the message of the error.
pub type Outcome = Result<JsonTree, Seq<char>>;

/// The result that tells an outcome.
pub open spec fn told(outcome: Outcome) -> JsonTree {
    match outcome {
        Ok(data) => content_of(data),
        Err(message) => error_of(message),
    }
}

/// The document is an object, and its text reads back as the document.
pub open spec fn is_shown(data: JsonTree) -> bool {
    render::reads_back(data, render::indented(data))
}

/// The document of an outcome, if it has one, is read back from its result.
pub open spec fn is_faithful(outcome: Outcome) -> bool {
    outcome matches Ok(data) ==> is_shown(data)
}

/// A result as tools give it: a text from which an object is read back, or one
/// that reports an error.
pub open spec fn is_told(result: JsonTree) -> bool {
    ||| exists|data: JsonTree|
        result == #[trigger] content_of(data) && is_shown(data)
    ||| exists|message: Seq<char>| result == #[trigger] error_of(message)
}

/// The content list with one text in it.
pub fn content(text: &str) -> (res: Json)
    ensures
        res@ == text_content(text@),
{
    Json::object().with(
        "content",
        Json::only(Json::object().with_text("type", "text").with_text("text", text)),
    )
}

/// The result that holds a document, as indented JSON text.
pub fn format_mcp_content(data: Json) -> (res: Json)
    ensures
        res@ == content_of(data@),
        data@ is Object ==> !text::has_prefix(render::indented(data@), "Error: "@),
        is_readable(data@, most_levels()) ==> render::read_value(
            encode_utf8(render::indented(data@)),
        ) == Some(render::serde_value(data@)),
        data@ is Object && is_readable(data@, most_levels()) ==> is_shown(data@) && is_told(res@),
{
    let text = render::pretty(&data);
    proof {
        reveal_strlit("Error: ");
        if text::has_prefix(text@, "Error: "@) {
            assert(text@.take(7)[0] == 'E');
        }
    }
    content(text.as_str())
}

/// The result that reports an error.
pub fn format_mcp_error(message: &str) -> (res: Json)
    ensures
        res@ == error_of(message@),
        is_told(res@),
{
    let text = "Error: ".to_string().concat(message);
    content(text.as_str()).with("isError", Json::Bool(true))
}

} // verus!
