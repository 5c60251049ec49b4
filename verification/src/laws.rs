//! What holds of the conversions, proved from the rules `decode` and `encode`
//! that the executable functions are verified against.

use crate::from_json::{fails_first_at, first_failure, lemma_first_failure_is_unique};
use crate::from_json::{FromJSON, ParseError};
use crate::to_json::ToJSON;
use crate::value::{Json, Numeral};
use json::number::Number;
use vstd::prelude::*;

verus! {

/// Whether decoding the encoding of `v` gives back what `v` stands for.
pub open spec fn round_trips<T: FromJSON + ToJSON>(v: T) -> bool {
    T::decode(v.encode()) == Ok::<T::Value, ParseError>(v.value())
}

/// Every boolean survives encoding and decoding.
pub proof fn lemma_bool_round_trips(v: bool)
    ensures
        round_trips(v),
{
}

/// Every string survives encoding and decoding.
pub proof fn lemma_string_round_trips(v: String)
    ensures
        round_trips(v),
{
}

/// Every number survives encoding and decoding.
pub proof fn lemma_number_round_trips(v: Number)
    ensures
        round_trips(v),
{
}

/// A vector survives encoding and decoding exactly where each of its elements
/// does.
pub proof fn lemma_vec_round_trips<T: FromJSON + ToJSON>(v: Vec<T>)
    ensures
        round_trips(v) <==> forall|i: int| 0 <= i < v@.len() ==> round_trips(#[trigger] v@[i]),
{
    let items = v@.map_values(|e: T| e.encode());
    let decoded = items.map_values(|item: Json| T::decode(item)->Ok_0);
    if forall|i: int| 0 <= i < v@.len() ==> round_trips(#[trigger] v@[i]) {
        assert forall|i: int| 0 <= i < items.len() implies T::decode(#[trigger] items[i]) is Ok
            && decoded[i] == v.value()[i] by {
            assert(round_trips(v@[i]));
        }
        assert(decoded =~= v.value());
    }
    if round_trips(v) {
        assert forall|i: int| 0 <= i < v@.len() implies round_trips(#[trigger] v@[i]) by {
            assert(T::decode(items[i]) is Ok);
            assert(decoded[i] == v.value()[i]);
        }
    }
}

/// An absent value always survives encoding and decoding. A present one does
/// exactly where its content survives and is not encoded as null: null
/// decodes to the absent state.
pub proof fn lemma_option_round_trips<T: FromJSON + ToJSON>(v: Option<T>)
    ensures
        round_trips(v) <==> match v {
            Some(x) => round_trips(x) && x.encode() != Json::Null,
            None => true,
        },
{
}

/// Null is an error for every type but `Option`.
pub proof fn lemma_null_is_unexpected<T: FromJSON>()
    ensures
        bool::decode(Json::Null) == Err::<bool, ParseError>(ParseError::UnexpectedNull),
        String::decode(Json::Null) == Err::<Seq<char>, ParseError>(ParseError::UnexpectedNull),
        Number::decode(Json::Null) == Err::<Numeral, ParseError>(ParseError::UnexpectedNull),
        Vec::<T>::decode(Json::Null) == Err::<Seq<T::Value>, ParseError>(
            ParseError::UnexpectedNull,
        ),
{
}

/// Null decodes to the absent state of an `Option`, whatever `T` makes of it.
pub proof fn lemma_null_is_absent<T: FromJSON>()
    ensures
        Option::<T>::decode(Json::Null) == Ok::<Option<T::Value>, ParseError>(None),
{
}

/// A value that is neither null nor of the kind that the target accepts is a
/// type mismatch.
pub proof fn lemma_other_kinds_mismatch<T: FromJSON>(json: Json)
    requires
        json !is Null,
    ensures
        json !is Boolean ==> bool::decode(json) == Err::<bool, ParseError>(
            ParseError::TypeMismatch,
        ),
        json !is Text ==> String::decode(json) == Err::<Seq<char>, ParseError>(
            ParseError::TypeMismatch,
        ),
        json !is Number ==> Number::decode(json) == Err::<Numeral, ParseError>(
            ParseError::TypeMismatch,
        ),
        json !is Array ==> Vec::<T>::decode(json) == Err::<Seq<T::Value>, ParseError>(
            ParseError::TypeMismatch,
        ),
{
}

/// A value of the kind that the target accepts decodes to what it holds.
pub proof fn lemma_own_kind_decodes(b: bool, text: Seq<char>, n: Numeral)
    ensures
        bool::decode(Json::Boolean(b)) == Ok::<bool, ParseError>(b),
        String::decode(Json::Text(text)) == Ok::<Seq<char>, ParseError>(text),
        Number::decode(Json::Number(n)) == Ok::<Numeral, ParseError>(n),
{
}

/// An `Option` makes of a value that is not null what `T` makes of it, a
/// success wrapped as present and an error passed on as it is.
pub proof fn lemma_option_delegates<T: FromJSON>(json: Json)
    requires
        json !is Null,
    ensures
        Option::<T>::decode(json) == match T::decode(json) {
            Ok(v) => Ok::<Option<T::Value>, ParseError>(Some(v)),
            Err(e) => Err(e),
        },
{
}

/// The empty array decodes to the empty vector, whatever the element type.
pub proof fn lemma_empty_array_decodes<T: FromJSON>()
    ensures
        Vec::<T>::decode(Json::Array(Seq::empty())) == Ok::<Seq<T::Value>, ParseError>(
            Seq::empty(),
        ),
{
    let items = Seq::<Json>::empty();
    assert(items.map_values(|item: Json| T::decode(item)->Ok_0) =~= Seq::<T::Value>::empty());
}

/// Where some item of a list fails, one of them is the first to fail, and it
/// comes no later.
pub proof fn lemma_failure_has_first<T: FromJSON>(items: Seq<Json>, i: int)
    requires
        0 <= i < items.len(),
        T::decode(items[i]) is Err,
    ensures
        fails_first_at::<T>(items, first_failure::<T>(items)),
        first_failure::<T>(items) <= i,
    decreases i,
{
    if exists|j: int| 0 <= j < i && T::decode(#[trigger] items[j]) is Err {
        let j = choose|j: int| 0 <= j < i && T::decode(#[trigger] items[j]) is Err;
        lemma_failure_has_first::<T>(items, j);
    } else {
        assert(fails_first_at::<T>(items, i));
        lemma_first_failure_is_unique::<T>(items, i);
    }
}

/// An array whose item `i` is the first that fails decodes to that item's
/// error, whatever comes after it.
pub proof fn lemma_first_error_wins<T: FromJSON>(items: Seq<Json>, i: int)
    requires
        fails_first_at::<T>(items, i),
    ensures
        Vec::<T>::decode(Json::Array(items)) == Err::<Seq<T::Value>, ParseError>(
            T::decode(items[i])->Err_0,
        ),
{
    lemma_first_failure_is_unique::<T>(items, i);
}

/// An array that fails to decode fails with the error of the first of its
/// items that fails.
pub proof fn lemma_array_error_is_first_error<T: FromJSON>(items: Seq<Json>)
    requires
        Vec::<T>::decode(Json::Array(items)) is Err,
    ensures
        fails_first_at::<T>(items, first_failure::<T>(items)),
        Vec::<T>::decode(Json::Array(items)) == Err::<Seq<T::Value>, ParseError>(
            T::decode(items[first_failure::<T>(items)])->Err_0,
        ),
{
    let i = choose|i: int| 0 <= i < items.len() && T::decode(#[trigger] items[i]) is Err;
    lemma_failure_has_first::<T>(items, i);
}

/// An array decodes to a vector exactly where each item decodes, and then to
/// the decoded items in order.
pub proof fn lemma_array_decodes_item_by_item<T: FromJSON>(items: Seq<Json>)
    ensures
        Vec::<T>::decode(Json::Array(items)) is Ok <==> forall|i: int|
            0 <= i < items.len() ==> T::decode(#[trigger] items[i]) is Ok,
        Vec::<T>::decode(Json::Array(items)) matches Ok(values) ==> {
            &&& values.len() == items.len()
            &&& forall|i: int|
                0 <= i < items.len() ==> T::decode(#[trigger] items[i]) == Ok::<
                    T::Value,
                    ParseError,
                >(values[i])
        },
{
}

/// The absent state encodes as null; a present value encodes as it would on
/// its own.
pub proof fn lemma_option_encodes<T: ToJSON>(v: T)
    ensures
        None::<T>.encode() == Json::Null,
        Some(v).encode() == v.encode(),
{
}

/// A vector encodes as an array of as many items, item `i` being what
/// element `i` encodes to.
pub proof fn lemma_vec_encodes<T: ToJSON>(v: Vec<T>)
    ensures
        v.encode() matches Json::Array(items) && {
            &&& items.len() == v@.len()
            &&& forall|i: int| 0 <= i < v@.len() ==> items[i] == (#[trigger] v@[i]).encode()
        },
{
}

/// No encoding is an object, unless that of a present value whose own
/// encoding is one.
pub proof fn lemma_encoding_is_no_object<T: ToJSON>(
    b: bool,
    byte: u8,
    n: Number,
    text: String,
    list: Vec<T>,
    maybe: Option<T>,
)
    ensures
        b.encode() !is Object,
        byte.encode() !is Object,
        n.encode() !is Object,
        text.encode() !is Object,
        list.encode() !is Object,
        maybe.encode() is Object ==> (maybe matches Some(v) && v.encode() is Object),
{
}

} // verus!
