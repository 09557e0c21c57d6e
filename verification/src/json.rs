//! JSON documents as `serde_json` reads them.
//!
//! Parsing and navigation are done by `serde_json`; this module states, over
//! a mathematical model of a document, what the rest of the library relies on.

use vstd::prelude::*;

verus! {

/// A JSON document as a mathematical value.
///
/// A number is kept only as the fact that it is one: nothing in this library
/// reads a number.
pub enum Json {
    Null,
    Bool(bool),
    Number,
    Text(Seq<char>),
    List(Seq<Json>),
    Object(Map<Seq<char>, Json>),
}

impl Json {
    /// The value under `key` if this is an object that has the key, else null.
    pub open spec fn member(self, key: Seq<char>) -> Json {
        match self {
            Json::Object(members) => if members.contains_key(key) {
                members[key]
            } else {
                Json::Null
            },
            _ => Json::Null,
        }
    }

    /// The item at `at` if this is a list that long, else null.
    pub open spec fn element(self, at: int) -> Json {
        match self {
            Json::List(items) => if 0 <= at < items.len() {
                items[at]
            } else {
                Json::Null
            },
            _ => Json::Null,
        }
    }

    /// The characters of this value if it is a string.
    pub open spec fn text(self) -> Option<Seq<char>> {
        match self {
            Json::Text(chars) => Some(chars),
            _ => None,
        }
    }
}

/// `serde_json::Value`, carried through as it is: what it holds is known
/// only through `document`.
#[verifier::external_type_specification]
#[verifier::external_body]
pub struct ExValue(serde_json::Value);

/// `serde_json::Error`, the failure that parsing reports. Nothing is read
/// from it.
#[verifier::external_type_specification]
#[verifier::external_body]
pub struct ExParseError(serde_json::Error);

/// The document that a `serde_json::Value` holds.
pub uninterp spec fn document(value: serde_json::Value) -> Json;

/// What `serde_json::from_slice` makes of a text: the document it reads, or
/// `None` where it reports an error.
pub uninterp spec fn parsed(text: Seq<u8>) -> Option<Json>;

/// `serde_json::from_slice` at type `Value`. Trusted: the outcome depends on
/// the bytes alone, so it is `parsed` of them, and a value that comes back
/// holds the document read.
#[verifier::external_body]
pub(crate) fn parse(text: &[u8]) -> (outcome: Result<serde_json::Value, serde_json::Error>)
    ensures
        match outcome {
            Ok(value) => parsed(text@) == Some(document(value)),
            Err(_) => parsed(text@) is None,
        },
{
    serde_json::from_slice(text)
}

/// `value[key]`, the `Index` impl of `serde_json::Value` for a string.
/// Trusted: it yields the member under `key` of an object that has it, and a
/// null value for a missing key or for anything that is not an object.
#[verifier::external_body]
pub(crate) fn member<'a>(value: &'a serde_json::Value, key: &str) -> (found: &'a serde_json::Value)
    ensures
        document(*found) == document(*value).member(key@),
{
    &value[key]
}

/// `value[at]`, the `Index` impl of `serde_json::Value` for a `usize`.
/// Trusted: it yields the item at `at` of an array that long, and a null
/// value past the end or for anything that is not an array.
#[verifier::external_body]
pub(crate) fn element(value: &serde_json::Value, at: usize) -> (found: &serde_json::Value)
    ensures
        document(*found) == document(*value).element(at as int),
{
    &value[at]
}

/// `serde_json::Value::as_str`. Trusted: it yields the characters of a string
/// value and `None` for every other kind of value.
pub assume_specification[ serde_json::Value::as_str ](value: &serde_json::Value) -> (text: Option<
    &str,
>)
    ensures
        match text {
            Some(chars) => document(*value) == Json::Text(chars@),
            None => !(document(*value) is Text),
        },
;

/// `serde_json::Value::is_null`. Trusted: it tells whether the value is null.
pub assume_specification[ serde_json::Value::is_null ](value: &serde_json::Value) -> (null: bool)
    ensures
        null == (document(*value) is Null),
;

} // verus!
