//! JSON documents as the feeds deliver them.
//!
//! The handlers keep a parsed document as the parser made it and read it
//! through the parser's own accessors. What a document holds is described
//! by `JsonValue`, so that the handlers' contracts can say what they make
//! of a message.

use serde_json::Value;
use vstd::prelude::*;

verus! {

/// A JSON value.
pub enum JsonValue {
    Null,
    Bool(bool),
    /// A number that is an integer within the range of 64 signed bits.
    Integer(i64),
    /// Any other number.
    Number,
    Text(Seq<char>),
    Array(Seq<JsonValue>),
    Object(Map<Seq<char>, JsonValue>),
}

impl JsonValue {
    /// The member `key` of an object; nothing for a value that is no
    /// object or has no such member.
    pub open spec fn member(self, key: Seq<char>) -> Option<JsonValue> {
        match self {
            JsonValue::Object(members) => if members.dom().contains(key) {
                Some(members[key])
            } else {
                None
            },
            _ => None,
        }
    }

    /// The characters of a string.
    pub open spec fn text(self) -> Option<Seq<char>> {
        match self {
            JsonValue::Text(characters) => Some(characters),
            _ => None,
        }
    }

    /// The value of an integer.
    pub open spec fn integer(self) -> Option<i64> {
        match self {
            JsonValue::Integer(number) => Some(number),
            _ => None,
        }
    }

    /// The elements of an array.
    pub open spec fn elements(self) -> Option<Seq<JsonValue>> {
        match self {
            JsonValue::Array(items) => Some(items),
            _ => None,
        }
    }

    /// The member `key` of an object, if it is a string.
    pub open spec fn text_member(self, key: Seq<char>) -> Option<Seq<char>> {
        match self.member(key) {
            Some(inner) => inner.text(),
            None => None,
        }
    }

    /// The member `key` of an object, if it is an integer.
    pub open spec fn integer_member(self, key: Seq<char>) -> Option<i64> {
        match self.member(key) {
            Some(inner) => inner.integer(),
            None => None,
        }
    }
}

#[verifier::external_type_specification]
#[verifier::external_body]
pub struct ExValue(Value);

#[verifier::external_type_specification]
#[verifier::external_body]
pub struct ExJsonError(serde_json::Error);

/// What a parsed document holds.
pub uninterp spec fn json_view(value: Value) -> JsonValue;

/// The JSON value that a text writes, if it writes one.
pub uninterp spec fn parsed_json(text: Seq<char>) -> Option<JsonValue>;

/// The values that a sequence of parsed documents holds.
pub open spec fn json_views(values: Seq<Value>) -> Seq<JsonValue> {
    Seq::new(values.len(), |i: int| json_view(values[i]))
}

/// `serde_json::from_str` reads one JSON document from the text, or
/// reports that the text is not one. The outcome depends on the text
/// alone.
#[verifier::external_body]
pub(crate) fn parse_document(text: &str) -> (parsed: Result<Value, serde_json::Error>)
    ensures
        match parsed {
            Ok(value) => parsed_json(text@) == Some(json_view(value)),
            Err(_) => parsed_json(text@) is None,
        },
{
    serde_json::from_str(text)
}

/// `Value::get` with a text key: the member of that name if the value is
/// an object that has one, else nothing.
#[verifier::external_body]
pub(crate) fn member<'a>(value: &'a Value, key: &str) -> (found: Option<&'a Value>)
    ensures
        match found {
            Some(inner) => json_view(*value).member(key@) == Some(json_view(*inner)),
            None => json_view(*value).member(key@) is None,
        },
{
    value.get(key)
}

/// `Value::as_str`: the text if the value is a JSON string, else nothing.
pub assume_specification<'a>[ Value::as_str ](value: &'a Value) -> (text: Option<&'a str>)
    ensures
        match text {
            Some(characters) => json_view(*value).text() == Some(characters@),
            None => json_view(*value).text() is None,
        },
;

/// `Value::as_i64`: the number if the value is an integer within the
/// range of 64 signed bits, else nothing.
pub assume_specification[ Value::as_i64 ](value: &Value) -> (number: Option<i64>)
    ensures
        number == json_view(*value).integer(),
;

/// `Value::as_array`: the elements if the value is a JSON array, else
/// nothing.
pub assume_specification<'a>[ Value::as_array ](value: &'a Value) -> (elements: Option<
    &'a Vec<Value>,
>)
    ensures
        match elements {
            Some(items) => json_view(*value).elements() == Some(json_views(items@)),
            None => json_view(*value).elements() is None,
        },
;

/// The view of an optional text.
pub open spec fn text_of(text: Option<&str>) -> Option<Seq<char>> {
    match text {
        Some(characters) => Some(characters@),
        None => None,
    }
}

/// The text member `key` of a document, if it has one.
pub fn text_member<'a>(value: &'a Value, key: &str) -> (text: Option<&'a str>)
    ensures
        text_of(text) == json_view(*value).text_member(key@),
{
    match member(value, key) {
        Some(inner) => inner.as_str(),
        None => None,
    }
}

/// The integer member `key` of a document, if it has one.
pub fn integer_member(value: &Value, key: &str) -> (number: Option<i64>)
    ensures
        number == json_view(*value).integer_member(key@),
{
    match member(value, key) {
        Some(inner) => inner.as_i64(),
        None => None,
    }
}

} // verus!
