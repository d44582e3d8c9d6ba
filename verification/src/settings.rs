//! The compiler settings: a JSON value of `serde_json`, carried through the
//! model untouched.
//!
//! Verus cannot look inside a `serde_json::Value`. What the library's
//! contracts say of one they say through `settings_json`, the value's compact
//! JSON text. The items of this file are the only ones whose contracts are
//! taken on trust from `serde_json`; everything else is proved from them.

use vstd::prelude::*;

verus! {

/// `serde_json::Value`, a JSON value of any shape. Nothing of its inside is
/// visible to the proofs.
#[verifier::external_type_specification]
#[verifier::external_body]
pub struct ExValue(serde_json::Value);

/// `serde_json::Error`, what the serializer reports when it fails. The
/// library reads nothing of it.
#[verifier::external_type_specification]
#[verifier::external_body]
pub struct ExJsonError(serde_json::Error);

/// What a settings value holds: its compact JSON text, as
/// `serde_json::to_string` writes it, or `None` where the serializer fails
/// on the value.
pub uninterp spec fn settings_json(settings: serde_json::Value) -> Option<Seq<char>>;

/// The empty JSON object, `serde_json::Value::Object` of `serde_json::Map::new()`.
///
/// Trusted: the serializer writes an object without entries as `{}`.
#[verifier::external_body]
pub(crate) fn empty_settings() -> (settings: serde_json::Value)
    ensures
        settings_json(settings) == Some("{}"@),
{
    serde_json::Value::Object(serde_json::Map::new())
}

/// Calls `serde_json::to_string` on the settings.
///
/// Trusted: the text that comes back is the one `settings_json` names, and
/// an error comes back exactly where `settings_json` is `None`.
#[verifier::external_body]
pub(crate) fn settings_to_json(settings: &serde_json::Value) -> (text: Result<
    String,
    serde_json::Error,
>)
    ensures
        match text {
            Ok(json) => settings_json(*settings) == Some(json@),
            Err(_) => settings_json(*settings).is_none(),
        },
{
    serde_json::to_string(settings)
}

/// `Clone` of `serde_json::Value`, which the crate derives.
///
/// Trusted: the copy holds what the value it was made from holds.
pub assume_specification[ <serde_json::Value as Clone>::clone ](
    settings: &serde_json::Value,
) -> (copy: serde_json::Value)
    ensures
        settings_json(copy) == settings_json(*settings),
;

} // verus!
