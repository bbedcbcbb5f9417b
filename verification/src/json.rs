//! JSON documents, which the task queue stores and carries but never reads.

use vstd::prelude::*;

verus! {

/// `serde_json::Value`, a JSON document. Nothing in this library looks inside one.
#[verifier::external_type_specification]
#[verifier::external_body]
pub struct ExValue(serde_json::Value);

/// `<serde_json::Value as Clone>::clone`. The impl is derived, so the copy is
/// the same document as the one it was made from.
pub assume_specification[ <serde_json::Value as Clone>::clone ](doc: &serde_json::Value) -> (copy:
    serde_json::Value)
    ensures
        copy == *doc,
;

/// `<serde_json::Value as Default>::default`, which is `Value::Null`: the
/// document that the text `null` holds.
pub assume_specification[ <serde_json::Value as Default>::default ]() -> (doc: serde_json::Value)
    ensures
        json_document("null"@) == Some(doc),
;

/// `serde_json::Error`: why a text is no JSON document.
#[verifier::external_type_specification]
#[verifier::external_body]
pub struct ExJsonError(serde_json::Error);

/// The document that `serde_json::from_str` reads from `text`, or `None`
/// where it reads none. What a text holds does not change from one reading
/// to the next.
pub uninterp spec fn json_document(text: Seq<char>) -> Option<serde_json::Value>;

/// Reads `text` with `serde_json::from_str`, as a `serde_json::Value`. What
/// comes back is what [`json_document`] names: the document, or the fault
/// where the text holds none.
#[verifier::external_body]
pub(crate) fn read_json(text: &str) -> (parsed: Result<serde_json::Value, serde_json::Error>)
    ensures
        parsed is Ok ==> json_document(text@) == Some(parsed->Ok_0),
        parsed is Err ==> json_document(text@) is None,
{
    serde_json::from_str(text)
}

} // verus!
