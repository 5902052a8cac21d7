//! The JSON documents that the log rows carry.
//!
//! `serde_json` reads the text. What the payload shapes look at, the members of
//! the top-level object and whether each is a string, an unsigned integer or
//! `null`, is modelled by [`JsonField`], and the few `serde_json` functions that
//! the decoder calls are described over that model.

use vstd::prelude::*;

verus! {

/// `serde_json`'s tree of a parsed document.
#[verifier::external_type_specification]
#[verifier::external_body]
pub struct ExJsonValue(serde_json::Value);

/// One JSON value, as far as a payload shape can tell values apart.
pub enum JsonField {
    /// `null`.
    Null,
    /// A string.
    Text(Seq<char>),
    /// An integer from 0 to 2^64 - 1, written without fraction or exponent.
    Unsigned(u64),
    /// Anything else: a boolean, another number, an array, an object.
    Other,
}

/// The members of a JSON object by their keys.
pub type JsonFields = Map<Seq<char>, JsonField>;

/// What `serde_json` makes of `text`: `None` where it is not one JSON
/// document, else the members of its top-level object (no members where the
/// document is not an object).
pub uninterp spec fn json_document(text: Seq<char>) -> Option<JsonFields>;

/// The members that `value` holds if it is an object; none if it is not.
pub uninterp spec fn object_fields(value: serde_json::Value) -> JsonFields;

/// What kind of value `value` is, with its content where a shape can read it.
pub uninterp spec fn field_of(value: serde_json::Value) -> JsonField;

/// `serde_json::from_str::<Value>`: the parsed document, `None` for text that
/// is not JSON. The contract names what the document holds.
#[verifier::external_body]
pub(crate) fn parse_document(text: &str) -> (r: Option<serde_json::Value>)
    ensures
        match r {
            Some(document) => json_document(text@) == Some(object_fields(document)),
            None => json_document(text@) is None,
        },
{
    serde_json::from_str::<serde_json::Value>(text).ok()
}

/// `Value::get` with a string index: the member of an object under `key`;
/// `None` where the value is no object or has no such member.
#[verifier::external_body]
pub(crate) fn member<'a>(document: &'a serde_json::Value, key: &str) -> (r: Option<
    &'a serde_json::Value,
>)
    ensures
        match r {
            Some(value) => object_fields(*document).contains_key(key@) && object_fields(
                *document,
            )[key@] == field_of(*value),
            None => !object_fields(*document).contains_key(key@),
        },
{
    document.get(key)
}

/// `Value::as_str`: the text of a JSON string, `None` for any other value.
#[verifier::external_body]
pub(crate) fn text_of<'a>(value: &'a serde_json::Value) -> (r: Option<&'a str>)
    ensures
        match r {
            Some(text) => field_of(*value) == JsonField::Text(text@),
            None => !(field_of(*value) is Text),
        },
{
    value.as_str()
}

/// `Value::as_u64`: the number, where the value is an integer that fits `u64`;
/// `None` for any other value.
#[verifier::external_body]
pub(crate) fn unsigned_of(value: &serde_json::Value) -> (r: Option<u64>)
    ensures
        match r {
            Some(number) => field_of(*value) == JsonField::Unsigned(number),
            None => !(field_of(*value) is Unsigned),
        },
{
    value.as_u64()
}

/// `Value::is_null`.
#[verifier::external_body]
pub(crate) fn is_null(value: &serde_json::Value) -> (r: bool)
    ensures
        r == (field_of(*value) is Null),
{
    value.is_null()
}

} // verus!
