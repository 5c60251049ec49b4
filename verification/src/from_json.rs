//! Decoding JSON values into native values.

use crate::value::{content, contents, numeral, shape, Json, Numeral, Shape};
use json::number::Number;
use json::JsonValue;
use vstd::prelude::*;

verus! {

/// Why a JSON value could not be decoded.
#[derive(Debug, Clone, Copy, PartialEq, Eq, Structural)]
pub enum ParseError {
    /// The value is of a kind that the target type does not accept.
    TypeMismatch,
    /// The value is null and the target type has no absent state.
    UnexpectedNull,
}

/// A type whose values can be decoded from a JSON value.
///
/// `decode` is the rule, stated on the content of the JSON value; `parse`
/// carries it out and returns exactly what the rule says.
pub trait FromJSON: Sized {
    /// The mathematical value that a `Self` stands for.
    type Value;

    /// What `self` stands for.
    spec fn value(&self) -> Self::Value;

    /// What decoding yields for a JSON value with the content `json`.
    spec fn decode(json: Json) -> Result<Self::Value, ParseError>;

    /// Decodes `json`.
    fn parse(json: &JsonValue) -> (result: Result<Self, ParseError>)
        ensures
            match result {
                Ok(v) => Self::decode(content(*json)) == Ok::<Self::Value, ParseError>(v.value()),
                Err(e) => Self::decode(content(*json)) == Err::<Self::Value, ParseError>(e),
            },
    ;
}

impl FromJSON for bool {
    type Value = bool;

    open spec fn value(&self) -> bool {
        *self
    }

    /// A boolean decodes to itself, null is unexpected, anything else is a
    /// mismatch.
    open spec fn decode(json: Json) -> Result<bool, ParseError> {
        match json {
            Json::Boolean(b) => Ok(b),
            Json::Null => Err(ParseError::UnexpectedNull),
            _ => Err(ParseError::TypeMismatch),
        }
    }

    fn parse(json: &JsonValue) -> (result: Result<bool, ParseError>)
        ensures
            result == Self::decode(content(*json)),
    {
        match shape(json) {
            Shape::Boolean(b) => Ok(b),
            Shape::Null => Err(ParseError::UnexpectedNull),
            _ => Err(ParseError::TypeMismatch),
        }
    }
}

impl FromJSON for String {
    type Value = Seq<char>;

    open spec fn value(&self) -> Seq<char> {
        self@
    }

    /// A text decodes to itself, null is unexpected, anything else is a
    /// mismatch.
    open spec fn decode(json: Json) -> Result<Seq<char>, ParseError> {
        match json {
            Json::Text(text) => Ok(text),
            Json::Null => Err(ParseError::UnexpectedNull),
            _ => Err(ParseError::TypeMismatch),
        }
    }

    fn parse(json: &JsonValue) -> (result: Result<String, ParseError>)
        ensures
            match result {
                Ok(text) => Self::decode(content(*json)) == Ok::<Seq<char>, ParseError>(text@),
                Err(e) => Self::decode(content(*json)) == Err::<Seq<char>, ParseError>(e),
            },
    {
        match shape(json) {
            Shape::String(text) => Ok(text.clone()),
            Shape::Short(text) => Ok(text.to_owned()),
            Shape::Null => Err(ParseError::UnexpectedNull),
            _ => Err(ParseError::TypeMismatch),
        }
    }
}

/// A number is decoded as the `json` crate holds it. Turning it into a float
/// or an integer is a further step, which the caller takes.
impl FromJSON for Number {
    type Value = Numeral;

    open spec fn value(&self) -> Numeral {
        numeral(*self)
    }

    /// A number decodes to itself, null is unexpected, anything else is a
    /// mismatch.
    open spec fn decode(json: Json) -> Result<Numeral, ParseError> {
        match json {
            Json::Number(n) => Ok(n),
            Json::Null => Err(ParseError::UnexpectedNull),
            _ => Err(ParseError::TypeMismatch),
        }
    }

    fn parse(json: &JsonValue) -> (result: Result<Number, ParseError>)
        ensures
            match result {
                Ok(n) => Self::decode(content(*json)) == Ok::<Numeral, ParseError>(numeral(n)),
                Err(e) => Self::decode(content(*json)) == Err::<Numeral, ParseError>(e),
            },
    {
        match shape(json) {
            Shape::Number(n) => Ok(n),
            Shape::Null => Err(ParseError::UnexpectedNull),
            _ => Err(ParseError::TypeMismatch),
        }
    }
}

/// Whether `items[i]` is the first item that `T` fails to decode.
pub open spec fn fails_first_at<T: FromJSON>(items: Seq<Json>, i: int) -> bool {
    &&& 0 <= i < items.len()
    &&& T::decode(items[i]) is Err
    &&& forall|j: int| 0 <= j < i ==> T::decode(#[trigger] items[j]) is Ok
}

/// The index of the first item that `T` fails to decode, where there is one.
pub open spec fn first_failure<T: FromJSON>(items: Seq<Json>) -> int {
    choose|i: int| fails_first_at::<T>(items, i)
}

/// What decoding a list of items yields: where any item fails, the error of
/// the first that does; otherwise the decoded items in order.
pub open spec fn decode_items<T: FromJSON>(items: Seq<Json>) -> Result<Seq<T::Value>, ParseError> {
    if exists|i: int| 0 <= i < items.len() && T::decode(#[trigger] items[i]) is Err {
        Err(T::decode(items[first_failure::<T>(items)])->Err_0)
    } else {
        Ok(items.map_values(|item: Json| T::decode(item)->Ok_0))
    }
}

/// At most one item is the first to fail.
pub proof fn lemma_first_failure_is_unique<T: FromJSON>(items: Seq<Json>, i: int)
    requires
        fails_first_at::<T>(items, i),
    ensures
        first_failure::<T>(items) == i,
{
    let first = first_failure::<T>(items);
    assert(fails_first_at::<T>(items, first));
    if first < i {
        assert(T::decode(items[first]) is Ok);
    }
    if i < first {
        assert(T::decode(items[i]) is Ok);
    }
}

impl<T: FromJSON> FromJSON for Vec<T> {
    type Value = Seq<T::Value>;

    open spec fn value(&self) -> Seq<T::Value> {
        self@.map_values(|v: T| v.value())
    }

    /// An array decodes item by item, null is unexpected, anything else is a
    /// mismatch.
    open spec fn decode(json: Json) -> Result<Seq<T::Value>, ParseError> {
        match json {
            Json::Array(items) => decode_items::<T>(items),
            Json::Null => Err(ParseError::UnexpectedNull),
            _ => Err(ParseError::TypeMismatch),
        }
    }

    fn parse(json: &JsonValue) -> (result: Result<Vec<T>, ParseError>)
        ensures
            match result {
                Ok(values) => Self::decode(content(*json)) == Ok::<Seq<T::Value>, ParseError>(
                    values.value(),
                ),
                Err(e) => Self::decode(content(*json)) == Err::<Seq<T::Value>, ParseError>(e),
            },
    {
        match shape(json) {
            Shape::Array(items) => {
                let ghost given = contents(items@);
                let mut values: Vec<T> = Vec::new();
                let mut i: usize = 0;
                while i < items.len()
                    invariant
                        i <= items.len(),
                        values.len() == i,
                        given == contents(items@),
                        content(*json) == Json::Array(given),
                        forall|k: int|
                            0 <= k < i ==> T::decode(#[trigger] given[k]) == Ok::<
                                T::Value,
                                ParseError,
                            >(values@[k].value()),
                    decreases items.len() - i,
                {
                    match T::parse(&items[i]) {
                        Ok(v) => {
                            values.push(v);
                        },
                        Err(e) => {
                            proof {
                                assert(given[i as int] == content(items@[i as int]));
                                lemma_first_failure_is_unique::<T>(given, i as int);
                            }
                            return Err(e);
                        },
                    }
                    i += 1;
                }
                assert(values.value() =~= given.map_values(|item: Json| T::decode(item)->Ok_0));
                Ok(values)
            },
            Shape::Null => Err(ParseError::UnexpectedNull),
            _ => Err(ParseError::TypeMismatch),
        }
    }
}

impl<T: FromJSON> FromJSON for Option<T> {
    type Value = Option<T::Value>;

    open spec fn value(&self) -> Option<T::Value> {
        match self {
            Some(v) => Some(v.value()),
            None => None,
        }
    }

    /// Null decodes to the absent state; anything else decodes as a `T` does,
    /// a success wrapped as present.
    open spec fn decode(json: Json) -> Result<Option<T::Value>, ParseError> {
        match json {
            Json::Null => Ok(None),
            _ => match T::decode(json) {
                Ok(v) => Ok(Some(v)),
                Err(e) => Err(e),
            },
        }
    }

    fn parse(json: &JsonValue) -> (result: Result<Option<T>, ParseError>)
        ensures
            match result {
                Ok(v) => Self::decode(content(*json)) == Ok::<Option<T::Value>, ParseError>(
                    v.value(),
                ),
                Err(e) => Self::decode(content(*json)) == Err::<Option<T::Value>, ParseError>(e),
            },
    {
        match shape(json) {
            Shape::Null => Ok(None),
            _ => match T::parse(json) {
                Ok(v) => Ok(Some(v)),
                Err(e) => Err(e),
            },
        }
    }
}

} // verus!
