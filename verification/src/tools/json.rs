//! JSON documents, as `serde_json` reads them.
//!
//! A document is a `serde_json::Value`. Nothing here looks inside one: what a
//! value holds is named by the spec functions below, one for each way of
//! asking, and the functions that ask are believed to answer by that name.
//! Everything built on them is proved from there.

use crate::text::opt_view;
use vstd::prelude::*;

verus! {

/// `serde_json::Value`, a JSON value of any kind.
#[verifier::external_type_specification]
#[verifier::external_body]
pub struct ExValue(serde_json::Value);

/// `serde_json::Error`, what reading a text as JSON fails with.
#[verifier::external_type_specification]
#[verifier::external_body]
pub struct ExError(serde_json::Error);

/// What `serde_json::from_str` makes of a text: the document, or why the
/// text is none.
pub uninterp spec fn json_parse(text: Seq<char>) -> Result<serde_json::Value, serde_json::Error>;

/// What `serde_json::Error` shows as its text.
pub uninterp spec fn json_error_text(error: serde_json::Error) -> Seq<char>;

/// What `Value::get` finds in a value under a key: the member of that name
/// if the value is an object and has one.
pub uninterp spec fn json_member(value: serde_json::Value, key: Seq<char>) -> Option<
    serde_json::Value,
>;

/// What `Value::as_str` gives: the text of a value that is a string.
pub uninterp spec fn json_text(value: serde_json::Value) -> Option<Seq<char>>;

/// What `Value::as_i64` gives: the number of a value that is an integer in
/// the range of `i64`.
pub uninterp spec fn json_integer(value: serde_json::Value) -> Option<i64>;

/// What `Value::as_f64` gives for a value that is a number, written with so
/// many decimals.
pub uninterp spec fn json_fixed(value: serde_json::Value, decimals: u8) -> Option<Seq<char>>;

/// What `Value::as_array` gives: the items of a value that is an array.
pub uninterp spec fn json_items(value: serde_json::Value) -> Option<Seq<serde_json::Value>>;

/// What `serde_json::to_string_pretty` makes of a value: the document laid
/// out over lines, if it can be written.
pub uninterp spec fn json_pretty(value: serde_json::Value) -> Option<Seq<char>>;

/// `serde_json::from_str`, for a `Value`: reads `text` as one JSON document.
/// The result depends on the text alone.
#[verifier::external_body]
pub(crate) fn parse(text: &str) -> (r: Result<serde_json::Value, serde_json::Error>)
    ensures
        r == json_parse(text@),
{
    serde_json::from_str::<serde_json::Value>(text)
}

/// The text that a `serde_json::Error` displays, by `to_string`. It depends
/// on the error alone.
#[verifier::external_body]
pub(crate) fn error_text(error: &serde_json::Error) -> (r: String)
    ensures
        r@ == json_error_text(*error),
{
    error.to_string()
}

/// `Value::get` with a string key: the member of that name, or `None` where
/// the value is no object or has no such member.
#[verifier::external_body]
pub(crate) fn member<'a>(value: &'a serde_json::Value, key: &str) -> (r: Option<
    &'a serde_json::Value,
>)
    ensures
        match r {
            Some(found) => json_member(*value, key@) == Some(*found),
            None => json_member(*value, key@).is_none(),
        },
{
    value.get(key)
}

/// `Value::as_str`: the text of a string, `None` for a value of another kind.
#[verifier::external_body]
pub(crate) fn text<'a>(value: &'a serde_json::Value) -> (r: Option<&'a str>)
    ensures
        match r {
            Some(t) => json_text(*value) == Some(t@),
            None => json_text(*value).is_none(),
        },
{
    value.as_str()
}

/// `Value::as_i64`: the number of an integer that fits, `None` for any other
/// value.
#[verifier::external_body]
pub(crate) fn integer(value: &serde_json::Value) -> (r: Option<i64>)
    ensures
        r == json_integer(*value),
{
    value.as_i64()
}

/// `Value::as_f64`, and the number written with `decimals` decimals as
/// `format!` writes it; `None` for a value that is no number. The text
/// depends on the value and on `decimals` alone. The count of decimals is a
/// `u8`: the formatter takes a precision given at run time only up to 65535.
#[verifier::external_body]
pub(crate) fn fixed(value: &serde_json::Value, decimals: u8) -> (r: Option<String>)
    ensures
        opt_view(r) == json_fixed(*value, decimals),
{
    value.as_f64().map(|number| format!("{:.*}", usize::from(decimals), number))
}

/// `Value::as_array`: the items of an array, `None` for a value of another
/// kind.
#[verifier::external_body]
pub(crate) fn items<'a>(value: &'a serde_json::Value) -> (r: Option<&'a Vec<serde_json::Value>>)
    ensures
        match r {
            Some(list) => json_items(*value) == Some(list@),
            None => json_items(*value).is_none(),
        },
{
    value.as_array()
}

/// `serde_json::to_string_pretty`: the value laid out over lines; `None`
/// where it cannot be written. The text depends on the value alone.
#[verifier::external_body]
pub(crate) fn pretty(value: &serde_json::Value) -> (r: Option<String>)
    ensures
        opt_view(r) == json_pretty(*value),
{
    serde_json::to_string_pretty(value).ok()
}

/// The text under a key: that of the member of that name, if there is one
/// and it is a string.
pub open spec fn member_text(value: serde_json::Value, key: Seq<char>) -> Option<Seq<char>> {
    match json_member(value, key) {
        Some(found) => json_text(found),
        None => None,
    }
}

/// The integer under a key.
pub open spec fn member_integer(value: serde_json::Value, key: Seq<char>) -> Option<i64> {
    match json_member(value, key) {
        Some(found) => json_integer(found),
        None => None,
    }
}

/// The number under a key, written with so many decimals.
pub open spec fn member_fixed(value: serde_json::Value, key: Seq<char>, decimals: u8) -> Option<
    Seq<char>,
> {
    match json_member(value, key) {
        Some(found) => json_fixed(found, decimals),
        None => None,
    }
}

/// The text under `key`, if `value` has a member of that name and it is a
/// string.
pub fn text_at(value: &serde_json::Value, key: &str) -> (r: Option<String>)
    ensures
        opt_view(r) == member_text(*value, key@),
{
    match member(value, key) {
        Some(found) => match text(found) {
            Some(t) => Some(t.to_owned()),
            None => None,
        },
        None => None,
    }
}

/// The integer under `key`.
pub fn integer_at(value: &serde_json::Value, key: &str) -> (r: Option<i64>)
    ensures
        r == member_integer(*value, key@),
{
    match member(value, key) {
        Some(found) => integer(found),
        None => None,
    }
}

/// The number under `key`, written with `decimals` decimals.
pub fn fixed_at(value: &serde_json::Value, key: &str, decimals: u8) -> (r: Option<String>)
    ensures
        opt_view(r) == member_fixed(*value, key@, decimals),
{
    match member(value, key) {
        Some(found) => fixed(found, decimals),
        None => None,
    }
}

} // verus!
