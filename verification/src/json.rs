//! JSON values. Reading JSON text and looking into a value is left to
//! `serde_json`; this module says what a value holds.

use vstd::prelude::*;

use crate::error::{Error, ErrorKind};

verus! {

/// What a JSON value holds.
pub enum Json {
    /// `null`
    Null,
    /// `true` or `false`
    Bool(bool),
    /// A number written without fraction and exponent.
    Integer(int),
    /// Any other number. Its value is not looked at.
    Fraction,
    /// A string.
    Text(Seq<char>),
    /// An array, with its items in order.
    Array(Seq<Json>),
    /// An object: its values by their keys.
    Object(Map<Seq<char>, Json>),
}

impl Json {
    /// The value under `key`, where this is an object that has the key.
    pub open spec fn field(self, key: Seq<char>) -> Option<Json> {
        match self {
            Json::Object(fields) => if fields.dom().contains(key) {
                Some(fields[key])
            } else {
                None
            },
            _ => None,
        }
    }

    /// The text of this value, where it is a string.
    pub open spec fn as_text(self) -> Option<Seq<char>> {
        match self {
            Json::Text(text) => Some(text),
            _ => None,
        }
    }

    /// The truth value of this value, where it is `true` or `false`.
    pub open spec fn as_bool(self) -> Option<bool> {
        match self {
            Json::Bool(b) => Some(b),
            _ => None,
        }
    }

    /// The number of this value, where it is an integer of 32 bits.
    pub open spec fn as_i32(self) -> Option<i32> {
        match self {
            Json::Integer(n) => if i32::MIN <= n <= i32::MAX {
                Some(n as i32)
            } else {
                None
            },
            _ => None,
        }
    }
}

/// A JSON value of `serde_json`.
#[verifier::external_type_specification]
#[verifier::external_body]
pub struct ExValue(serde_json::Value);

/// What a value of `serde_json` holds.
pub uninterp spec fn json_of(value: serde_json::Value) -> Json;

/// What `serde_json` reads from a text: the value that the text is the JSON
/// of, or nothing where the text is not one JSON value.
pub uninterp spec fn json_from_text(text: Seq<char>) -> Option<Json>;

/// What each of a list of values holds.
pub open spec fn json_of_all(values: Seq<serde_json::Value>) -> Seq<Json> {
    Seq::new(values.len(), |i: int| json_of(values[i]))
}

/// `serde_json::from_str`, asked for a `Value`. What it returns depends on
/// the text alone and goes by the name [`json_from_text`]: a value where the
/// text is read, nothing where `serde_json` reports an error.
#[verifier::external_body]
pub(crate) fn value_from_str(text: &str) -> (value: Option<serde_json::Value>)
    ensures
        match value {
            Some(v) => json_from_text(text@) == Some(json_of(v)),
            None => json_from_text(text@) is None,
        },
{
    match serde_json::from_str::<serde_json::Value>(text) {
        Ok(value) => Some(value),
        Err(_) => None,
    }
}

/// `Value::get` with a string index: the value under `key` where `value` is
/// an object that has the key, nothing otherwise.
#[verifier::external_body]
pub(crate) fn value_get<'a>(value: &'a serde_json::Value, key: &str) -> (field: Option<
    &'a serde_json::Value,
>)
    ensures
        match field {
            Some(inner) => json_of(*value).field(key@) == Some(json_of(*inner)),
            None => json_of(*value).field(key@) is None,
        },
{
    value.get(key)
}

/// `Value::as_str`: the text where `value` is a string, nothing otherwise.
#[verifier::external_body]
pub(crate) fn value_as_str<'a>(value: &'a serde_json::Value) -> (text: Option<&'a str>)
    ensures
        match text {
            Some(s) => json_of(*value) == Json::Text(s@),
            None => !(json_of(*value) is Text),
        },
{
    value.as_str()
}

/// `Value::as_bool`: the truth value where `value` is `true` or `false`,
/// nothing otherwise.
#[verifier::external_body]
pub(crate) fn value_as_bool(value: &serde_json::Value) -> (truth: Option<bool>)
    ensures
        match truth {
            Some(b) => json_of(*value) == Json::Bool(b),
            None => !(json_of(*value) is Bool),
        },
{
    value.as_bool()
}

/// `Value::as_i64`: the number where `value` is an integer that an `i64` can
/// hold, nothing otherwise.
#[verifier::external_body]
pub(crate) fn value_as_i64(value: &serde_json::Value) -> (number: Option<i64>)
    ensures
        match number {
            Some(n) => json_of(*value) == Json::Integer(n as int),
            None => !(json_of(*value) matches Json::Integer(n) && i64::MIN <= n <= i64::MAX),
        },
{
    value.as_i64()
}

/// `Value::as_array`: the items where `value` is an array, nothing otherwise.
#[verifier::external_body]
pub(crate) fn value_as_array<'a>(value: &'a serde_json::Value) -> (items: Option<
    &'a Vec<serde_json::Value>,
>)
    ensures
        match items {
            Some(list) => json_of(*value) == Json::Array(json_of_all(list@)),
            None => !(json_of(*value) is Array),
        },
{
    value.as_array()
}

/// Whether `decoded` is the value that `expected` is the view of: a value
/// with that view where there is one, nothing where there is none.
pub open spec fn is_decoded<T: View>(decoded: Option<T>, expected: Option<T::V>) -> bool {
    match decoded {
        Some(value) => expected == Some(value@),
        None => expected is None,
    }
}

/// The views of a list of values.
pub open spec fn views<T: View>(values: Seq<T>) -> Seq<T::V> {
    Seq::new(values.len(), |i: int| values[i]@)
}

/// A type whose values are decoded from JSON.
pub trait FromJson: View + Sized {
    /// The value of this type that a JSON value describes, where it describes
    /// one.
    spec fn from_json(json: Json) -> Option<Self::V>;

    /// Decodes a value of this type. Nothing is returned exactly where the
    /// JSON value describes no value of this type.
    fn decode(value: &serde_json::Value) -> (decoded: Option<Self>)
        ensures
            is_decoded(decoded, Self::from_json(json_of(*value))),
    ;
}

impl FromJson for String {
    open spec fn from_json(json: Json) -> Option<Seq<char>> {
        json.as_text()
    }

    fn decode(value: &serde_json::Value) -> (decoded: Option<String>) {
        let text = value_as_str(value)?;
        Some(text.to_owned())
    }
}

impl FromJson for bool {
    open spec fn from_json(json: Json) -> Option<bool> {
        json.as_bool()
    }

    fn decode(value: &serde_json::Value) -> (decoded: Option<bool>) {
        value_as_bool(value)
    }
}

impl FromJson for i32 {
    open spec fn from_json(json: Json) -> Option<i32> {
        json.as_i32()
    }

    fn decode(value: &serde_json::Value) -> (decoded: Option<i32>) {
        let number = value_as_i64(value)?;
        if -0x8000_0000 <= number && number <= 0x7fff_ffff {
            Some(number as i32)
        } else {
            None
        }
    }
}

/// What the value under `key` describes, where `json` is an object that has
/// the key.
pub open spec fn field_from_json<T: FromJson>(json: Json, key: Seq<char>) -> Option<T::V> {
    match json.field(key) {
        Some(inner) => T::from_json(inner),
        None => None,
    }
}

/// What the items of an array describe, where each of them describes a value.
pub open spec fn items_from_json<T: FromJson>(items: Seq<Json>) -> Option<Seq<T::V>> {
    if forall|i: int| 0 <= i < items.len() ==> T::from_json(#[trigger] items[i]) is Some {
        Some(Seq::new(items.len(), |i: int| T::from_json(items[i])->0))
    } else {
        None
    }
}

/// What the items of the array under `key` describe.
pub open spec fn array_field_from_json<T: FromJson>(json: Json, key: Seq<char>) -> Option<
    Seq<T::V>,
> {
    match json.field(key) {
        Some(Json::Array(items)) => items_from_json::<T>(items),
        _ => None,
    }
}

/// Decodes the value under `key`.
pub fn decode_field<T: FromJson>(value: &serde_json::Value, key: &str) -> (decoded: Option<T>)
    ensures
        is_decoded(decoded, field_from_json::<T>(json_of(*value), key@)),
{
    let inner = value_get(value, key)?;
    T::decode(inner)
}

/// Decodes the items of the array under `key`, in order.
pub fn decode_array_field<T: FromJson>(value: &serde_json::Value, key: &str) -> (decoded: Option<
    Vec<T>,
>)
    ensures
        match decoded {
            Some(list) => array_field_from_json::<T>(json_of(*value), key@) == Some(views(list@)),
            None => array_field_from_json::<T>(json_of(*value), key@) is None,
        },
{
    let inner = value_get(value, key)?;
    let items = value_as_array(inner)?;
    let ghost all = json_of_all(items@);
    let mut list: Vec<T> = Vec::new();
    let mut i: usize = 0;
    while i < items.len()
        invariant
            all == json_of_all(items@),
            json_of(*value).field(key@) == Some(Json::Array(all)),
            i <= items@.len(),
            list@.len() == i,
            forall|j: int| 0 <= j < i ==> T::from_json(#[trigger] all[j]) == Some(list@[j]@),
        decreases items@.len() - i,
    {
        match T::decode(&items[i]) {
            Some(item) => {
                list.push(item);
            },
            None => {
                assert(T::from_json(all[i as int]) is None);
                return None;
            },
        }
        i += 1;
    }
    assert(views(list@) =~= items_from_json::<T>(all)->0);
    Some(list)
}

/// What a JSON text describes as a value of the type `T`: nothing where the
/// text is not JSON, or its JSON describes no such value.
pub open spec fn text_from_json<T: FromJson>(text: Seq<char>) -> Option<T::V> {
    match json_from_text(text) {
        Some(json) => T::from_json(json),
        None => None,
    }
}

/// Whether `parsed` is the result of reading a text that describes
/// `expected`: a value with that view, or an error of the kind
/// `ParseBodyFailed` where nothing is described.
pub open spec fn is_parsed<T: View>(parsed: Result<T, Error>, expected: Option<T::V>) -> bool {
    match expected {
        Some(view) => parsed matches Ok(value) && value@ == view,
        None => parsed matches Err(error) && error@ == ErrorKind::ParseBodyFailed,
    }
}

/// Reads a value of the type `T` from its JSON text.
pub fn parse_text<T: FromJson>(text: &str) -> (parsed: Result<T, Error>)
    ensures
        is_parsed(parsed, text_from_json::<T>(text@)),
{
    let value = match value_from_str(text) {
        Some(value) => value,
        None => {
            return Err(Error::new(ErrorKind::ParseBodyFailed));
        },
    };
    match T::decode(&value) {
        Some(decoded) => Ok(decoded),
        None => Err(Error::new(ErrorKind::ParseBodyFailed)),
    }
}

} // verus!
