//! A JSON document as plain data, read from text by `serde_json`.

use vstd::prelude::*;
use vstd::string::*;

verus! {

/// A JSON value. A number keeps the text it was written with, so that no
/// digit of it is lost.
#[derive(Debug, PartialEq, Eq)]
pub enum Json {
    Null,
    Bool(bool),
    Number(String),
    Text(String),
    Array(Vec<Json>),
    Object(Vec<Member>),
}

/// One key of a JSON object, with its value.
#[derive(Debug, PartialEq, Eq)]
pub struct Member {
    pub key: String,
    pub value: Json,
}

/// The value of the first member at or after `start` whose key is `key`.
pub open spec fn find_member(members: Seq<Member>, key: Seq<char>, start: int) -> Option<Json>
    decreases members.len() - start,
{
    if start < 0 || start >= members.len() {
        None
    } else if members[start].key@ == key {
        Some(members[start].value)
    } else {
        find_member(members, key, start + 1)
    }
}

impl Json {
    /// Whether this value is a JSON object.
    pub open spec fn spec_is_object(&self) -> bool {
        self is Object
    }

    /// The value under `key`, where this value is an object that has the key.
    pub open spec fn spec_member(&self, key: Seq<char>) -> Option<Json> {
        match self {
            Json::Object(members) => find_member(members@, key, 0),
            _ => None,
        }
    }

    /// The text of this value, where it is a number.
    pub open spec fn spec_number_text(&self) -> Option<Seq<char>> {
        match self {
            Json::Number(text) => Some(text@),
            _ => None,
        }
    }

    /// Whether this value is a JSON object.
    #[verifier::when_used_as_spec(spec_is_object)]
    pub fn is_object(&self) -> (b: bool)
        ensures
            b == self.spec_is_object(),
    {
        match self {
            Json::Object(_) => true,
            _ => false,
        }
    }

    /// The value under `key`: `None` where this value is no object, or an
    /// object without that key.
    pub fn member(&self, key: &String) -> (found: Option<&Json>)
        ensures
            found is Some <==> self.spec_member(key@) is Some,
            found matches Some(value) ==> self.spec_member(key@) == Some(*value),
    {
        match self {
            Json::Object(members) => {
                let mut i: usize = 0;
                while i < members.len()
                    invariant
                        i <= members.len(),
                        self.spec_member(key@) == find_member(members@, key@, i as int),
                    decreases members.len() - i,
                {
                    if members[i].key == *key {
                        return Some(&members[i].value);
                    }
                    i = i + 1;
                }
                None
            },
            _ => None,
        }
    }

    /// The text of this value, where it is a number.
    pub fn number_text(&self) -> (text: Option<&String>)
        ensures
            text is Some <==> self.spec_number_text() is Some,
            text matches Some(t) ==> self.spec_number_text() == Some(t@),
    {
        match self {
            Json::Number(text) => Some(text),
            _ => None,
        }
    }
}

/// `serde_json::Value`, carried from the parser to the copy.
#[verifier::external_type_specification]
#[verifier::external_body]
pub struct ExJsonValue(serde_json::Value);

/// `serde_json::Error`, carried from the parser to its text.
#[verifier::external_type_specification]
#[verifier::external_body]
pub struct ExJsonError(serde_json::Error);

/// The document that `serde_json::from_str` reads from a text, or `None`
/// where it rejects the text.
pub uninterp spec fn parsed_json(text: Seq<char>) -> Option<Json>;

/// The bits of the finite double that `serde_json::Number::as_f64` gives for
/// the text of a number, or `None` where it gives none.
pub uninterp spec fn number_float_bits(text: Seq<char>) -> Option<u64>;

/// Copies a `serde_json::Value` into a [`Json`], variant by variant. A number
/// is written out with its `Display`, which is the text that was read; the
/// members of an object come in the order in which the map hands them out.
/// Nothing is claimed of the copy here: `json_from_text` names it.
#[verifier::external_body]
fn json_of_value(value: serde_json::Value) -> Json {
    match value {
        serde_json::Value::Null => Json::Null,
        serde_json::Value::Bool(b) => Json::Bool(b),
        serde_json::Value::Number(n) => Json::Number(n.to_string()),
        serde_json::Value::String(s) => Json::Text(s),
        serde_json::Value::Array(items) => Json::Array(
            items.into_iter().map(json_of_value).collect(),
        ),
        serde_json::Value::Object(map) => Json::Object(
            map.into_iter().map(|(key, value)| Member { key, value: json_of_value(value) }).collect(),
        ),
    }
}

/// Calls `serde_json::from_str` for a `serde_json::Value` and copies the
/// value. The contract claims that the outcome depends on the text alone: it
/// is the document named `parsed_json`, and an error exactly where that is
/// `None`.
#[verifier::external_body]
pub(crate) fn json_from_text(text: &str) -> (r: Result<Json, serde_json::Error>)
    ensures
        r is Ok <==> parsed_json(text@) is Some,
        r matches Ok(doc) ==> parsed_json(text@) == Some(doc),
{
    serde_json::from_str::<serde_json::Value>(text).map(json_of_value)
}

/// Writes a `serde_json::Error` out with its `Display`. Nothing is claimed of
/// the text.
#[verifier::external_body]
pub(crate) fn json_error_text(error: &serde_json::Error) -> String {
    error.to_string()
}

/// Reads the text of a number as `serde_json::Number` and calls its `as_f64`,
/// which gives a double only where it is finite; the double is handed out as
/// its bits. The contract claims that the outcome is the one named
/// `number_float_bits`.
#[verifier::external_body]
pub(crate) fn float_bits_of_number(text: &str) -> (r: Option<u64>)
    ensures
        r == number_float_bits(text@),
{
    text.parse::<serde_json::Number>().ok().and_then(|n| n.as_f64()).map(|x| x.to_bits())
}

} // verus!
