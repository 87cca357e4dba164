//! Declarations for the JSON values that run through the driver opaquely,
//! and the one place where a value's content is inspected.

use vstd::prelude::*;

verus! {

#[verifier::external_type_specification]
#[verifier::external_body]
pub struct ExJsonValue(serde_json::Value);

/// Relies on serde_json's `Value::get` and `Value::as_str`: returns the
/// string under the "msgtype" key when `v` is a JSON object holding one,
/// and `None` otherwise (non-object content, missing key, non-string value).
#[verifier::external_body]
pub(crate) fn content_msgtype(v: &serde_json::Value) -> Option<String> {
    v.get("msgtype").and_then(|m| m.as_str()).map(|s| s.to_owned())
}

} // verus!
