//! JSON documents, kept as `serde_json` values. The library carries them
//! through and asks the JSON parser whether a text is a document; it never
//! looks inside one.

use vstd::prelude::*;

verus! {

/// A JSON document of `serde_json`, opaque to the proofs.
#[verifier::external_type_specification]
#[verifier::external_body]
pub struct ExJsonValue(serde_json::Value);

/// The error `serde_json` reports for a text it cannot parse.
#[verifier::external_type_specification]
#[verifier::external_body]
pub struct ExJsonError(serde_json::Error);

/// The document `serde_json::from_str` reads out of `text`, or nothing where
/// it refuses the text.
pub uninterp spec fn json_document(text: Seq<char>) -> Option<serde_json::Value>;

/// Calls `serde_json::from_str` for a `serde_json::Value`. The parser reads
/// nothing but the text, so its answer is a fixed function of the text, named
/// `json_document`: the document on success, nothing on an error. Nothing is
/// claimed about which texts parse or what a document holds.
#[verifier::external_body]
pub(crate) fn parse_json(text: &str) -> (r: Result<serde_json::Value, serde_json::Error>)
    ensures
        match r {
            Ok(document) => json_document(text@) == Some(document),
            Err(_) => json_document(text@) is None,
        },
{
    serde_json::from_str::<serde_json::Value>(text)
}

/// `Clone::clone` of `serde_json::Value` copies the document node by node:
/// the copy is the same document.
pub assume_specification[ <serde_json::Value as Clone>::clone ](value: &serde_json::Value) -> (r:
    serde_json::Value)
    ensures
        r == *value,
;

/// A persisted JSON field after decoding into the type the logic reads:
/// either the decoded value, or the fact that the stored document does not
/// have the expected shape.
#[derive(Clone, Debug, PartialEq)]
pub enum Decoded<T> {
    Valid(T),
    Invalid,
}

} // verus!
