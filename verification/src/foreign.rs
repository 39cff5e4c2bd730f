//! Types of other crates that the data model carries. The verifier sees
//! nothing inside them: a value of either is passed along as it came.

use vstd::prelude::*;

verus! {

/// A JSON document: the input of a tool call, or the schema of a tool.
#[verifier::external_type_specification]
#[verifier::external_body]
pub struct ExJsonValue(serde_json::Value);

/// The identifier that ties a response to its request.
#[verifier::external_type_specification]
#[verifier::external_body]
pub struct ExUuid(uuid::Uuid);

/// Trusted: the clone of a JSON document, which `serde_json` derives, is a
/// copy of the whole document and so equal to it.
pub assume_specification[ <serde_json::Value as Clone>::clone ](value: &serde_json::Value) -> (copy:
    serde_json::Value)
    ensures
        copy == *value,
;

} // verus!
