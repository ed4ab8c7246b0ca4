//! Reading a text as a JSON document and writing the document out indented.
use vstd::prelude::*;

verus! {

#[verifier::external_type_specification]
#[verifier::external_body]
pub struct ExJsonValue(serde_json::Value);

/// The document that a text denotes when read as JSON; nothing for a text
/// that is not JSON.
pub uninterp spec fn json_document(text: Seq<char>) -> Option<serde_json::Value>;

/// The indented rendering of a document, where the serializer produces one.
pub uninterp spec fn json_pretty(document: serde_json::Value) -> Option<Seq<char>>;

/// The text shown for a body: the indented rendering of the JSON document it
/// denotes, and the body itself where it denotes none or cannot be rendered.
pub open spec fn formatted_text(body: Seq<char>) -> Seq<char> {
    match json_document(body) {
        Some(document) => match json_pretty(document) {
            Some(pretty) => pretty,
            None => body,
        },
        None => body,
    }
}

/// `serde_json::from_str` at the type `serde_json::Value`. What it returns is
/// determined by the text alone; the parse error, if any, is dropped.
#[verifier::external_body]
pub(crate) fn parse_json(text: &str) -> (document: Option<serde_json::Value>)
    ensures
        document == json_document(text@),
{
    serde_json::from_str::<serde_json::Value>(text).ok()
}

/// `serde_json::to_string_pretty` on a document. What it returns is determined
/// by the document alone; the serializer's error, if any, is dropped.
#[verifier::external_body]
pub(crate) fn pretty_json(document: &serde_json::Value) -> (text: Option<String>)
    ensures
        match text {
            Some(t) => json_pretty(*document) == Some(t@),
            None => json_pretty(*document) is None,
        },
{
    serde_json::to_string_pretty(document).ok()
}

/// The text to show for a body, given its indented rendering if there is one.
pub fn prefer_pretty(raw: &String, pretty: Option<String>) -> (text: String)
    ensures
        text@ == match pretty {
            Some(p) => p@,
            None => raw@,
        },
{
    match pretty {
        Some(p) => p,
        None => raw.clone(),
    }
}

/// Indents a body that is a JSON document and leaves any other body as it is.
pub fn format_body(body: &String) -> (text: String)
    ensures
        text@ == formatted_text(body@),
{
    match parse_json(body.as_str()) {
        Some(document) => prefer_pretty(body, pretty_json(&document)),
        None => prefer_pretty(body, None),
    }
}

} // verus!
