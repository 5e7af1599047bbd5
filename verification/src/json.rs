//! The payload format: cached values are held as JSON documents.

use vstd::prelude::*;

verus! {

/// `serde_json::Value`, a JSON document. The cache keeps and returns
/// documents and never looks into one.
#[verifier::external_type_specification]
#[verifier::external_body]
pub struct ExJsonValue(serde_json::Value);

/// `serde_json::Error`, why a value could not be encoded or a document
/// decoded.
#[verifier::external_type_specification]
#[verifier::external_body]
pub struct ExJsonError(serde_json::Error);

/// `serde_json::Value`'s `clone`.
///
/// Trusted: the copy is taken to be the same document as the one it was
/// made from, which is what the derived `Clone` of `serde_json::Value`
/// produces.
pub assume_specification[ <serde_json::Value as Clone>::clone ](
    value: &serde_json::Value,
) -> (copy: serde_json::Value)
    ensures
        copy == *value,
;

} // verus!
