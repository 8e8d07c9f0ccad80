//! JSON values as `serde_json` parses them and hands out what they hold.
//!
//! A `serde_json::Value` is opaque to the verifier. What the crate needs to
//! know of one is given a name here, and each wrapper below states which name
//! its `serde_json` function returns. Nothing in this file is proved: the
//! contracts are taken on trust from `serde_json`.

use vstd::prelude::*;

verus! {

/// `serde_json::Value`, carried through verified code without looking inside.
#[verifier::external_type_specification]
#[verifier::external_body]
pub struct ExValue(serde_json::Value);

/// `serde_json::Error`, carried through verified code without looking inside.
#[verifier::external_type_specification]
#[verifier::external_body]
pub struct ExError(serde_json::Error);

/// What `serde_json::from_str::<Vec<serde_json::Value>>` makes of `text`: the
/// elements of the JSON array that the text is, in the order of the array;
/// `None` where it reports an error.
pub uninterp spec fn json_array(text: Seq<char>) -> Option<Seq<serde_json::Value>>;

/// The member that `value` holds under `key`, where `value` is a JSON object
/// with such a member; `None` for an object without one and for a value that
/// is no object.
pub uninterp spec fn json_member(value: serde_json::Value, key: Seq<char>) -> Option<
    serde_json::Value,
>;

/// The text that `value` holds, where `value` is a JSON string; `None` for
/// any other value.
pub uninterp spec fn json_text(value: serde_json::Value) -> Option<Seq<char>>;

/// Calls `serde_json::from_str` for a `Vec<serde_json::Value>`.
///
/// Trusted: the outcome depends on the text alone. Success returns the
/// elements that [`json_array`] names, and an error comes exactly where
/// [`json_array`] is `None`.
#[verifier::external_body]
pub(crate) fn parse_array(text: &str) -> (parsed: Result<
    Vec<serde_json::Value>,
    serde_json::Error,
>)
    ensures
        match parsed {
            Ok(values) => json_array(text@) == Some(values@),
            Err(_) => json_array(text@) is None,
        },
{
    serde_json::from_str::<Vec<serde_json::Value>>(text)
}

/// Calls `serde_json::Value::get` with a string index.
///
/// Trusted: the call returns the member of an object under the key, and
/// `None` where the object has no such member or the value is no object.
/// That is what [`json_member`] names.
#[verifier::external_body]
pub(crate) fn member<'a>(value: &'a serde_json::Value, key: &str) -> (found: Option<
    &'a serde_json::Value,
>)
    ensures
        match found {
            Some(inner) => json_member(*value, key@) == Some(*inner),
            None => json_member(*value, key@) is None,
        },
{
    value.get(key)
}

/// Calls `serde_json::Value::as_str`.
///
/// Trusted: the call returns the text of a JSON string, and `None` for any
/// other value. That is what [`json_text`] names.
#[verifier::external_body]
pub(crate) fn text<'a>(value: &'a serde_json::Value) -> (found: Option<&'a str>)
    ensures
        match found {
            Some(inner) => json_text(*value) == Some(inner@),
            None => json_text(*value) is None,
        },
{
    value.as_str()
}

} // verus!
