//! The mathematical content of a `json::JsonValue`, and the few operations
//! through which the conversions read and build such values.
//!
//! `JsonValue`, `Number` and `Object` belong to the `json` crate and are opaque
//! to the verifier. Contracts speak of the first two through [`content`] and
//! [`numeral`]; every function in this module that touches one of them is
//! trusted, not proved.

use json::number::Number;
use json::object::Object;
use json::JsonValue;
use vstd::prelude::*;

verus! {

/// `json::JsonValue`, the dynamically typed JSON value. Opaque: verified code
/// learns what one holds from [`shape`] alone.
#[verifier::external_type_specification]
#[verifier::external_body]
pub struct ExJsonValue(json::JsonValue);

/// `json::number::Number`, the decimal number inside a `JsonValue`. Opaque:
/// verified code hands it on and never looks inside.
#[verifier::external_type_specification]
#[verifier::external_body]
pub struct ExNumber(json::number::Number);

/// `json::object::Object`, the key-value store inside a `JsonValue`. Opaque:
/// verified code hands it on and never looks inside.
#[verifier::external_type_specification]
#[verifier::external_body]
pub struct ExObject(json::object::Object);

/// What a JSON number holds.
pub enum Numeral {
    /// Not a number.
    NotANumber,
    /// `mantissa * 10^exponent`, negated unless `positive`.
    Decimal { positive: bool, mantissa: nat, exponent: int },
}

/// What a JSON value holds.
///
/// Short and long strings are both `Text`. An object is carried as it is: no
/// conversion here reads or builds one.
pub enum Json {
    Null,
    Boolean(bool),
    Number(Numeral),
    Text(Seq<char>),
    Array(Seq<Json>),
    Object(Object),
}

/// The content of a `json::number::Number`: not a number where `is_nan` says
/// so, otherwise the parts that `as_parts` gives.
pub uninterp spec fn numeral(number: Number) -> Numeral;

/// The content of a `json::JsonValue`: its variant and what the variant
/// carries, an array item by item.
pub uninterp spec fn content(value: JsonValue) -> Json;

/// The contents of a list of JSON values, in order.
pub open spec fn contents(values: Seq<JsonValue>) -> Seq<Json> {
    values.map_values(|value: JsonValue| content(value))
}

/// The variant of a `JsonValue`, with what it carries: small things copied,
/// the rest borrowed.
pub(crate) enum Shape<'a> {
    Null,
    Short(&'a str),
    String(&'a String),
    Number(Number),
    Boolean(bool),
    Object(&'a Object),
    Array(&'a Vec<JsonValue>),
}

impl<'a> Shape<'a> {
    /// The content of the value that has this shape.
    pub(crate) open spec fn content(self) -> Json {
        match self {
            Shape::Null => Json::Null,
            Shape::Short(text) => Json::Text(text@),
            Shape::String(text) => Json::Text(text@),
            Shape::Number(number) => Json::Number(numeral(number)),
            Shape::Boolean(b) => Json::Boolean(b),
            Shape::Object(object) => Json::Object(*object),
            Shape::Array(items) => Json::Array(contents(items@)),
        }
    }
}

/// Tells the variants of `JsonValue` apart, one arm for each; the text of a
/// `Short` is taken with `Short::as_str`.
///
/// Trusted: the shape handed back has the content of `json`. This is what
/// gives [`content`] its meaning: null, a boolean, the numeral of a number,
/// the text of either kind of string, an object, or the contents of the
/// items of an array.
#[verifier::external_body]
pub(crate) fn shape(json: &JsonValue) -> (shape: Shape<'_>)
    ensures
        shape.content() == content(*json),
{
    match json {
        JsonValue::Null => Shape::Null,
        JsonValue::Short(text) => Shape::Short(text.as_str()),
        JsonValue::String(text) => Shape::String(text),
        JsonValue::Number(number) => Shape::Number(*number),
        JsonValue::Boolean(b) => Shape::Boolean(*b),
        JsonValue::Object(object) => Shape::Object(object),
        JsonValue::Array(items) => Shape::Array(items),
    }
}

/// `JsonValue::Null`.
///
/// Trusted: its content is `Json::Null`.
#[verifier::external_body]
pub(crate) fn null_value() -> (json: JsonValue)
    ensures
        content(json) == Json::Null,
{
    JsonValue::Null
}

/// `JsonValue::Boolean`.
///
/// Trusted: its content is the boolean given.
#[verifier::external_body]
pub(crate) fn boolean_value(b: bool) -> (json: JsonValue)
    ensures
        content(json) == Json::Boolean(b),
{
    JsonValue::Boolean(b)
}

/// `JsonValue::Number`.
///
/// Trusted: its content is that of the number given.
#[verifier::external_body]
pub(crate) fn number_value(n: Number) -> (json: JsonValue)
    ensures
        content(json) == Json::Number(numeral(n)),
{
    JsonValue::Number(n)
}

/// `JsonValue::from` on a string slice, which picks `Short` or `String` by
/// the length of the text.
///
/// Trusted: either way the content is the text given.
#[verifier::external_body]
pub(crate) fn text_value(s: &str) -> (json: JsonValue)
    ensures
        content(json) == Json::Text(s@),
{
    JsonValue::from(s)
}

/// `JsonValue::Array`.
///
/// Trusted: its content is the list of the contents of the items, in order.
#[verifier::external_body]
pub(crate) fn array_value(items: Vec<JsonValue>) -> (json: JsonValue)
    ensures
        content(json) == Json::Array(contents(items@)),
{
    JsonValue::Array(items)
}

/// `Number::from` on a `u8`.
///
/// Trusted: the number is positive, with the byte as mantissa and exponent 0.
#[verifier::external_body]
pub(crate) fn number_of_u8(v: u8) -> (number: Number)
    ensures
        numeral(number) == (Numeral::Decimal { positive: true, mantissa: v as nat, exponent: 0 }),
{
    Number::from(v)
}

} // verus!
