//! The JSON encoder that settings are handed to filters with.

use std::collections::HashMap;
use vstd::prelude::*;

verus! {

#[verifier::external_type_specification]
#[verifier::external_body]
pub struct ExValue(serde_json::Value);

#[verifier::external_type_specification]
#[verifier::external_body]
pub struct ExError(serde_json::Error);

/// Calls `serde_json::to_string` on a settings object.
///
/// The contract claims that the call succeeds, and nothing of the text. The
/// encoder fails where its writer fails, where the key of a map is not a
/// string, and where a value's own `Serialize` fails: it writes into a
/// vector here, the keys are strings, and `Value` serializes every one of its
/// forms, a number that is not finite as `null`. The text lists the keys in
/// the order in which the map is walked, which differs from one process to
/// the next.
#[verifier::external_body]
pub(crate) fn settings_to_json(settings: &HashMap<String, serde_json::Value>) -> (encoded: Result<
    String,
    serde_json::Error,
>)
    ensures
        encoded is Ok,
{
    serde_json::to_string(settings)
}

/// Renders a `serde_json::Error` as text, through its `Display`
/// implementation. Nothing is claimed of the text.
#[verifier::external_body]
pub(crate) fn json_error_message(error: &serde_json::Error) -> (message: String) {
    error.to_string()
}

} // verus!
