//! JSON documents, read by `serde_json`.

use vstd::prelude::*;

verus! {

/// `serde_json::Value`, a JSON document. The library carries documents and
/// never looks into one.
#[verifier::external_type_specification]
#[verifier::external_body]
pub struct ExJsonValue(serde_json::Value);

/// `serde_json::Error`, why a text could not be decoded. The library
/// carries such errors and never looks into one.
#[verifier::external_type_specification]
#[verifier::external_body]
pub struct ExJsonError(serde_json::Error);

/// `Value::clone` returns a copy of the document. Nothing is claimed of
/// the copy.
pub assume_specification[ <serde_json::Value as Clone>::clone ](
    value: &serde_json::Value,
) -> (copy: serde_json::Value)
;

/// Whether `serde_json::from_str` reads `text` as one JSON document.
pub uninterp spec fn is_json(text: Seq<char>) -> bool;

/// Calls `serde_json::from_str` for a `serde_json::Value` and keeps the
/// document where the text is one. The parser reads nothing but the text,
/// so whether it succeeds depends on the text alone; that is all the
/// contract claims.
#[verifier::external_body]
pub(crate) fn parse_json(text: &str) -> (document: Option<serde_json::Value>)
    ensures
        document is Some == is_json(text@),
{
    serde_json::from_str::<serde_json::Value>(text).ok()
}

} // verus!
