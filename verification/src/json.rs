//! The trusted boundary around the JSON crate and the timestamp parser.
//! Inbound frames arrive as text, and everything the logic reads out of one
//! is a function of that text alone, so each extraction carries a name the
//! contracts upstream can speak of: whether the text parses, what a named
//! field holds as a string, and what a named field holds as a JSON document
//! of its own.

use vstd::prelude::*;

verus! {

/// Whether the JSON parser accepts the text as one JSON document: a
/// function of the text alone.
pub uninterp spec fn json_valid(s: Seq<char>) -> bool;

/// Relies on serde_json::from_str: parses one JSON document, succeeding
/// exactly on valid JSON text (deeply nested input fails under the
/// parser's recursion limit rather than aborting).
#[verifier::external_body]
pub(crate) fn json_is_valid(text: &str) -> (r: bool)
    ensures
        r == json_valid(text@),
{
    serde_json::from_str::<serde_json::Value>(text).is_ok()
}

/// The string content of the named field of the text, parsed as a JSON
/// object: `None` when the text is not valid JSON, not an object, lacks the
/// key, or holds anything but a string there. A function of text and key
/// alone.
pub uninterp spec fn json_string_field_of(doc: Seq<char>, key: Seq<char>) -> Option<Seq<char>>;

/// Relies on serde_json::from_str, Value::get and Value::as_str: the named
/// object field of the document, as the string it holds.
#[verifier::external_body]
pub(crate) fn json_string_field(text: &str, key: &str) -> (r: Option<String>)
    ensures
        r matches Some(s) ==> json_string_field_of(text@, key@) == Some(s@),
        r is None ==> json_string_field_of(text@, key@) is None,
        r is Some ==> json_valid(text@),
{
    let doc: serde_json::Value = serde_json::from_str(text).ok()?;
    let field = doc.get(key)?;
    field.as_str().map(|s| s.to_string())
}

/// The named field of the text, parsed as a JSON object, handed back as the
/// field's own JSON text: `None` when the text is not valid JSON, not an
/// object, or lacks the key. A function of text and key alone.
pub uninterp spec fn json_field_doc_of(doc: Seq<char>, key: Seq<char>) -> Option<Seq<char>>;

/// Relies on serde_json::from_str, Value::get and serde_json::to_string:
/// the named object field of the document, re-serialized (serializing a
/// `Value` itself cannot fail).
#[verifier::external_body]
pub(crate) fn json_field_doc(text: &str, key: &str) -> (r: Option<String>)
    ensures
        r matches Some(s) ==> json_field_doc_of(text@, key@) == Some(s@),
        r is None ==> json_field_doc_of(text@, key@) is None,
        r is Some ==> json_valid(text@),
{
    let doc: serde_json::Value = serde_json::from_str(text).ok()?;
    let field = doc.get(key)?;
    Some(serde_json::to_string(field).unwrap_or_default())
}

/// Which texts the timestamp parser accepts: a function of the text alone.
pub uninterp spec fn rfc3339_valid(s: Seq<char>) -> bool;

/// Relies on chrono::DateTime::parse_from_rfc3339: accepts exactly what
/// that RFC 3339 parser accepts. The criterion is this parser, not chrono's
/// more lenient `FromStr`/serde path: the few relaxed spellings only the
/// latter takes are discarded here.
#[verifier::external_body]
pub(crate) fn timestamp_valid(s: &str) -> (r: bool)
    ensures
        r == rfc3339_valid(s@),
{
    chrono::DateTime::parse_from_rfc3339(s).is_ok()
}

} // verus!
