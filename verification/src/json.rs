//! The JSON documents of `serde_json`, as far as the agent reads them.
//!
//! Nothing in this file is proved: the contracts below are believed of `serde_json`.

use vstd::prelude::*;

verus! {

/// A JSON document, `serde_json::Value`. What it holds is seen only through
/// `json_strings` and `json_keys`.
#[verifier::external_type_specification]
#[verifier::external_body]
pub struct ExJsonValue(serde_json::Value);

/// The error of `serde_json`, carried from the parser to the caller and never read.
#[verifier::external_type_specification]
#[verifier::external_body]
pub struct ExJsonError(serde_json::Error);

/// The strings that a document holds, each under the JSON pointer that
/// addresses it: a pointer is a key exactly where `serde_json::Value::pointer`
/// finds a value for it and that value is a string.
pub uninterp spec fn json_strings(doc: serde_json::Value) -> Map<Seq<char>, Seq<char>>;

/// The names of the members of a document that is an object; no name where it
/// is not an object.
pub uninterp spec fn json_keys(doc: serde_json::Value) -> Set<Seq<char>>;

/// The strings, by `json_strings`, of the document that `serde_json::from_str`
/// reads from a text, and `None` where it reports an error.
pub uninterp spec fn json_text_strings(text: Seq<char>) -> Option<Map<Seq<char>, Seq<char>>>;

/// Calls `serde_json::from_str` for a `Value`. Believed: whether it succeeds, and
/// the strings of the document it gives, depend on the text alone;
/// `json_text_strings` names them.
#[verifier::external_body]
pub(crate) fn parse_document(text: &str) -> (r: Result<serde_json::Value, serde_json::Error>)
    ensures
        r is Ok <==> json_text_strings(text@) is Some,
        r matches Ok(doc) ==> json_text_strings(text@) == Some(json_strings(doc)),
{
    serde_json::from_str::<serde_json::Value>(text)
}

/// Calls `serde_json::Value::pointer` and, on what it finds, `Value::as_str`.
/// Believed: a string comes back exactly for the pointers that `json_strings`
/// holds, and it is the string held there.
#[verifier::external_body]
pub(crate) fn string_at(doc: &serde_json::Value, pointer: &str) -> (r: Option<String>)
    ensures
        r is Some <==> json_strings(*doc).contains_key(pointer@),
        r matches Some(s) ==> json_strings(*doc)[pointer@] == s@,
{
    doc.pointer(pointer)?.as_str().map(str::to_owned)
}

/// Calls `serde_json::Value::get` with a string index. Believed: it finds a
/// member exactly for the names in `json_keys`.
#[verifier::external_body]
pub(crate) fn has_key(doc: &serde_json::Value, key: &str) -> (r: bool)
    ensures
        r == json_keys(*doc).contains(key@),
{
    doc.get(key).is_some()
}

} // verus!
