//! Encoding native values as JSON values.

use crate::value::{array_value, boolean_value, null_value, number_of_u8, number_value, text_value};
use crate::value::{content, contents, numeral, Json, Numeral};
use json::number::Number;
use json::JsonValue;
use vstd::prelude::*;

verus! {

/// A type whose values can be encoded as a JSON value. Encoding never fails.
///
/// `encode` is the rule: the content of the JSON value that stands for `self`;
/// `to_json` builds a value with exactly that content.
pub trait ToJSON {
    /// The content of the JSON value that stands for `self`.
    spec fn encode(&self) -> Json;

    /// Encodes `self`.
    fn to_json(&self) -> (json: JsonValue)
        ensures
            content(json) == self.encode(),
    ;
}

impl ToJSON for bool {
    open spec fn encode(&self) -> Json {
        Json::Boolean(*self)
    }

    fn to_json(&self) -> (json: JsonValue)
        ensures
            content(json) == Json::Boolean(*self),
    {
        boolean_value(*self)
    }
}

impl ToJSON for u8 {
    /// The positive number with the byte as mantissa and no exponent.
    open spec fn encode(&self) -> Json {
        Json::Number(Numeral::Decimal { positive: true, mantissa: *self as nat, exponent: 0 })
    }

    fn to_json(&self) -> (json: JsonValue)
        ensures
            content(json) == self.encode(),
    {
        number_value(number_of_u8(*self))
    }
}

/// A number that the caller has already made, from a float for one, is
/// encoded as it is.
impl ToJSON for Number {
    open spec fn encode(&self) -> Json {
        Json::Number(numeral(*self))
    }

    fn to_json(&self) -> (json: JsonValue)
        ensures
            content(json) == Json::Number(numeral(*self)),
    {
        number_value(*self)
    }
}

impl ToJSON for String {
    open spec fn encode(&self) -> Json {
        Json::Text(self@)
    }

    fn to_json(&self) -> (json: JsonValue)
        ensures
            content(json) == Json::Text(self@),
    {
        text_value(self.as_str())
    }
}

impl<T: ToJSON> ToJSON for Option<T> {
    /// The present state encodes as its value does, the absent state as null.
    open spec fn encode(&self) -> Json {
        match self {
            Some(v) => v.encode(),
            None => Json::Null,
        }
    }

    fn to_json(&self) -> (json: JsonValue)
        ensures
            content(json) == self.encode(),
    {
        match self {
            Some(v) => v.to_json(),
            None => null_value(),
        }
    }
}

impl<T: ToJSON> ToJSON for Vec<T> {
    /// The array of the encodings of the elements, in order.
    open spec fn encode(&self) -> Json {
        Json::Array(self@.map_values(|v: T| v.encode()))
    }

    fn to_json(&self) -> (json: JsonValue)
        ensures
            content(json) == self.encode(),
    {
        let mut items: Vec<JsonValue> = Vec::new();
        let mut i: usize = 0;
        while i < self.len()
            invariant
                i <= self.len(),
                items.len() == i,
                forall|k: int| 0 <= k < i ==> content(#[trigger] items@[k]) == self@[k].encode(),
            decreases self.len() - i,
        {
            items.push(self[i].to_json());
            i += 1;
        }
        assert(contents(items@) =~= self@.map_values(|v: T| v.encode()));
        array_value(items)
    }
}

} // verus!
