//! JSON values, as `serde_json` parses and reads them.
//!
//! Nothing here is proved: each function hands one call to `serde_json`, and
//! its contract says what that crate documents of the call. A value is
//! opaque to the verifier; the spec functions below name what the accessors
//! of `serde_json::Value` return for it.

use vstd::prelude::*;

verus! {

#[verifier::external_type_specification]
#[verifier::external_body]
pub struct ExJsonValue(serde_json::Value);

/// What `serde_json::from_str` makes of `text`: the value it parses to, or
/// `None` where it reports an error.
pub uninterp spec fn json_parsed(text: Seq<char>) -> Option<serde_json::Value>;

/// What `Value::get` returns for a string key: the member stored under `key`
/// where `value` is an object that has one, else `None`.
pub uninterp spec fn json_member(value: serde_json::Value, key: Seq<char>) -> Option<
    serde_json::Value,
>;

/// What `Value::as_array` returns: the elements in order where `value` is an
/// array, else `None`.
pub uninterp spec fn json_elements(value: serde_json::Value) -> Option<Seq<serde_json::Value>>;

/// What `Value::as_object` holds: the members in the order in which the
/// object's map yields them, each with its key, where `value` is an object,
/// else `None`.
pub uninterp spec fn json_members(value: serde_json::Value) -> Option<
    Seq<(Seq<char>, serde_json::Value)>,
>;

/// What `Value::as_str` returns: the characters where `value` is a string,
/// else `None`.
pub uninterp spec fn json_string(value: serde_json::Value) -> Option<Seq<char>>;

/// What `Value::as_u64` returns: the number where `value` is an integer
/// that fits in 64 unsigned bits, else `None`.
pub uninterp spec fn json_unsigned(value: serde_json::Value) -> Option<u64>;

/// What `Value::is_null` returns.
pub uninterp spec fn json_is_null(value: serde_json::Value) -> bool;

/// The compact JSON text that `Value`'s `Display` writes for `value`.
pub uninterp spec fn json_text(value: serde_json::Value) -> Seq<char>;

/// Calls `serde_json::from_str` for a `Value`. The result is the parsed
/// value, and `None` on every error that the parser reports.
#[verifier::external_body]
pub(crate) fn parse_json(text: &str) -> (parsed: Option<serde_json::Value>)
    ensures
        parsed == json_parsed(text@),
{
    serde_json::from_str::<serde_json::Value>(text).ok()
}

/// Calls `Value::get` with a string key. The result borrows the member
/// stored under `key`; it is `None` where `value` is no object or has no
/// such member.
#[verifier::external_body]
pub(crate) fn member<'a>(value: &'a serde_json::Value, key: &str) -> (found: Option<
    &'a serde_json::Value,
>)
    ensures
        match found {
            Some(m) => json_member(*value, key@) == Some(*m),
            None => json_member(*value, key@) is None,
        },
{
    value.get(key)
}

/// Calls `Value::as_array`. The result borrows the elements of an array and
/// is `None` for every other value.
#[verifier::external_body]
pub(crate) fn elements<'a>(value: &'a serde_json::Value) -> (found: Option<
    &'a Vec<serde_json::Value>,
>)
    ensures
        match found {
            Some(items) => json_elements(*value) == Some(items@),
            None => json_elements(*value) is None,
        },
{
    value.as_array()
}

/// The keys and values of borrowed members, in order.
pub open spec fn members_view(members: Seq<(String, &serde_json::Value)>) -> Seq<
    (Seq<char>, serde_json::Value),
> {
    Seq::new(members.len(), |i: int| (members[i].0@, *members[i].1))
}

/// Calls `Value::as_object` and walks the map with `iter`. The result holds
/// a copy of each key beside the borrowed value, in the map's order; it is
/// `None` where `value` is no object.
#[verifier::external_body]
pub(crate) fn members<'a>(value: &'a serde_json::Value) -> (found: Option<
    Vec<(String, &'a serde_json::Value)>,
>)
    ensures
        match found {
            Some(ms) => json_members(*value) == Some(members_view(ms@)),
            None => json_members(*value) is None,
        },
{
    value.as_object().map(|map| map.iter().map(|(key, member)| (key.clone(), member)).collect())
}

/// Calls `Value::as_str` and copies the characters. The result is `None`
/// where `value` is no string.
#[verifier::external_body]
pub(crate) fn string_of(value: &serde_json::Value) -> (found: Option<String>)
    ensures
        match found {
            Some(s) => json_string(*value) == Some(s@),
            None => json_string(*value) is None,
        },
{
    value.as_str().map(str::to_owned)
}

/// Calls `Value::as_u64`.
#[verifier::external_body]
pub(crate) fn unsigned_of(value: &serde_json::Value) -> (found: Option<u64>)
    ensures
        found == json_unsigned(*value),
{
    value.as_u64()
}

/// Calls `Value::is_null`.
#[verifier::external_body]
pub(crate) fn is_null(value: &serde_json::Value) -> (null: bool)
    ensures
        null == json_is_null(*value),
{
    value.is_null()
}

/// Calls `to_string` on a `Value`, which writes it through its `Display`
/// impl as compact JSON.
#[verifier::external_body]
pub(crate) fn text_of(value: &serde_json::Value) -> (text: String)
    ensures
        text@ == json_text(*value),
{
    value.to_string()
}

} // verus!
