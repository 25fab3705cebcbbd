//! The structured value type of the host, `serde_json::Value`, and the few
//! operations on it that the crate relies on.
//!
//! Nothing in this file is proved: each function states what the `serde_json`
//! function it calls does, and the rest of the crate builds on those
//! statements.

use vstd::prelude::*;

verus! {

/// `serde_json::Value`, carried through the crate as an opaque value.
#[verifier::external_type_specification]
#[verifier::external_body]
pub struct ExJsonValue(serde_json::Value);

/// `serde_json::Error`, carried through the crate as an opaque value.
#[verifier::external_type_specification]
#[verifier::external_body]
pub struct ExJsonError(serde_json::Error);

/// The compact JSON text that `serde_json` writes for `value`.
pub uninterp spec fn json_text(value: serde_json::Value) -> Seq<char>;

/// The value that `serde_json` reads from `text`, if `text` is one JSON
/// document and nothing else.
pub uninterp spec fn json_parse(text: Seq<char>) -> Option<serde_json::Value>;

/// The member named `key` of `value`, if `value` is an object that has one.
pub uninterp spec fn json_member(value: serde_json::Value, key: Seq<char>) -> Option<
    serde_json::Value,
>;

/// The boolean that `value` is, if it is one.
pub uninterp spec fn json_bool(value: serde_json::Value) -> Option<bool>;

/// Calls `ToString::to_string` on a `serde_json::Value`, which writes the
/// value through its `Display` impl in compact form. The text depends on the
/// value alone; the contract gives it the name [`json_text`].
#[verifier::external_body]
pub(crate) fn write_json(value: &serde_json::Value) -> (text: String)
    ensures
        text@ == json_text(*value),
{
    value.to_string()
}

/// Calls `serde_json::from_str` for a `serde_json::Value`. Whether the text
/// parses, and to which value, depends on the text alone; the contract gives
/// the outcome the name [`json_parse`].
#[verifier::external_body]
pub(crate) fn read_json(text: &str) -> (parsed: Result<serde_json::Value, serde_json::Error>)
    ensures
        match parsed {
            Ok(value) => json_parse(text@) == Some(value),
            Err(_) => json_parse(text@) is None,
        },
{
    serde_json::from_str(text)
}

/// Calls `serde_json::Value::get` with a string key: the member of that name
/// if the value is an object that has it, nothing otherwise. The contract
/// gives the outcome the name [`json_member`].
#[verifier::external_body]
pub(crate) fn member_of<'a>(value: &'a serde_json::Value, key: &str) -> (found: Option<
    &'a serde_json::Value,
>)
    ensures
        match found {
            Some(member) => json_member(*value, key@) == Some(*member),
            None => json_member(*value, key@) is None,
        },
{
    value.get(key)
}

/// Calls `serde_json::Value::as_bool`: the boolean if the value is one,
/// nothing otherwise. The contract gives the outcome the name [`json_bool`].
#[verifier::external_body]
pub(crate) fn bool_of(value: &serde_json::Value) -> (flag: Option<bool>)
    ensures
        flag == json_bool(*value),
{
    value.as_bool()
}

/// Calls `ToString::to_string` on a `serde_json::Error`, which gives the
/// parser's description of what went wrong. Nothing is claimed of the text.
#[verifier::external_body]
pub(crate) fn describe_json_error(error: &serde_json::Error) -> (text: String) {
    error.to_string()
}

} // verus!
