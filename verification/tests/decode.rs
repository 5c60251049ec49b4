use json::number::Number;
use json::JsonValue;
use json_convert::from_json::{FromJSON, ParseError};

fn long_text() -> String {
    "a text of more than thirty bytes, kept on the heap".to_string()
}

fn other_kinds_than_boolean() -> Vec<JsonValue> {
    vec![
        JsonValue::from("true"),
        JsonValue::String(long_text()),
        JsonValue::Number(Number::from(1u8)),
        JsonValue::Array(vec![JsonValue::Boolean(true)]),
        JsonValue::new_object(),
    ]
}

#[test]
fn bool_from_boolean() {
    assert_eq!(bool::parse(&JsonValue::Boolean(true)), Ok(true));
    assert_eq!(bool::parse(&JsonValue::Boolean(false)), Ok(false));
}

#[test]
fn bool_from_null_is_unexpected_null() {
    assert_eq!(bool::parse(&JsonValue::Null), Err(ParseError::UnexpectedNull));
}

#[test]
fn bool_from_other_kinds_is_type_mismatch() {
    for json in other_kinds_than_boolean() {
        assert_eq!(bool::parse(&json), Err(ParseError::TypeMismatch));
    }
}

#[test]
fn string_from_short_variant() {
    let json = JsonValue::from("x");
    assert!(matches!(json, JsonValue::Short(_)));
    assert_eq!(String::parse(&json), Ok("x".to_string()));
}

#[test]
fn string_from_string_variant() {
    let json = JsonValue::String(long_text());
    assert_eq!(String::parse(&json), Ok(long_text()));
    let short_on_heap = JsonValue::String("abc".to_string());
    assert_eq!(String::parse(&short_on_heap), Ok("abc".to_string()));
}

#[test]
fn string_from_empty_text() {
    assert_eq!(String::parse(&JsonValue::from("")), Ok(String::new()));
    assert_eq!(String::parse(&JsonValue::String(String::new())), Ok(String::new()));
}

#[test]
fn string_from_text_beyond_ascii() {
    let text = "žluťoučký kůň – 馬";
    assert_eq!(String::parse(&JsonValue::from(text)), Ok(text.to_string()));
}

#[test]
fn string_from_null_is_unexpected_null() {
    assert_eq!(String::parse(&JsonValue::Null), Err(ParseError::UnexpectedNull));
}

#[test]
fn string_from_boolean_is_type_mismatch() {
    assert_eq!(String::parse(&JsonValue::Boolean(true)), Err(ParseError::TypeMismatch));
}

#[test]
fn string_from_other_kinds_is_type_mismatch() {
    let others = vec![
        JsonValue::Boolean(false),
        JsonValue::Number(Number::from(7u8)),
        JsonValue::Array(vec![JsonValue::from("x")]),
        JsonValue::new_object(),
    ];
    for json in others {
        assert_eq!(String::parse(&json), Err(ParseError::TypeMismatch));
    }
}

#[test]
fn number_from_number_keeps_its_parts() {
    let given = Number::from_parts(false, 12345, -3);
    let decoded = Number::parse(&JsonValue::Number(given)).unwrap();
    assert_eq!(decoded.as_parts(), (false, 12345, -3));
    assert!(!decoded.is_nan());
}

#[test]
fn number_from_not_a_number_stays_so() {
    let decoded = Number::parse(&JsonValue::Number(json::number::NAN)).unwrap();
    assert!(decoded.is_nan());
}

#[test]
fn number_from_null_is_unexpected_null() {
    assert_eq!(Number::parse(&JsonValue::Null), Err(ParseError::UnexpectedNull));
}

#[test]
fn number_from_numeric_text_is_type_mismatch() {
    assert_eq!(Number::parse(&JsonValue::from("12")), Err(ParseError::TypeMismatch));
    assert_eq!(Number::parse(&JsonValue::String("12".to_string())), Err(ParseError::TypeMismatch));
}

#[test]
fn number_from_other_kinds_is_type_mismatch() {
    let others = vec![
        JsonValue::Boolean(true),
        JsonValue::Array(vec![JsonValue::Number(Number::from(1u8))]),
        JsonValue::new_object(),
    ];
    for json in others {
        assert_eq!(Number::parse(&json), Err(ParseError::TypeMismatch));
    }
}

#[test]
fn vec_from_empty_array_is_empty() {
    let empty = JsonValue::new_array();
    assert_eq!(Vec::<bool>::parse(&empty), Ok(vec![]));
    assert_eq!(Vec::<String>::parse(&empty), Ok(vec![]));
    assert_eq!(Vec::<Number>::parse(&empty), Ok(vec![]));
    assert_eq!(Vec::<Vec<bool>>::parse(&empty), Ok(vec![]));
    assert_eq!(Vec::<Option<bool>>::parse(&empty), Ok(vec![]));
}

#[test]
fn vec_from_array_keeps_the_order() {
    let json = JsonValue::Array(vec![
        JsonValue::from("first"),
        JsonValue::String(long_text()),
        JsonValue::from("third"),
    ]);
    assert_eq!(
        Vec::<String>::parse(&json),
        Ok(vec!["first".to_string(), long_text(), "third".to_string()])
    );
}

#[test]
fn vec_from_array_of_one() {
    let json = JsonValue::Array(vec![JsonValue::Boolean(false)]);
    assert_eq!(Vec::<bool>::parse(&json), Ok(vec![false]));
}

#[test]
fn vec_from_null_is_unexpected_null() {
    assert_eq!(Vec::<bool>::parse(&JsonValue::Null), Err(ParseError::UnexpectedNull));
}

#[test]
fn vec_from_other_kinds_is_type_mismatch() {
    let others = vec![
        JsonValue::Boolean(true),
        JsonValue::from("[]"),
        JsonValue::String(long_text()),
        JsonValue::Number(Number::from(0u8)),
        JsonValue::new_object(),
    ];
    for json in others {
        assert_eq!(Vec::<bool>::parse(&json), Err(ParseError::TypeMismatch));
    }
}

#[test]
fn vec_fails_with_the_error_of_the_first_item_that_fails() {
    let null_then_text = JsonValue::Array(vec![JsonValue::Null, JsonValue::from("x")]);
    assert_eq!(Vec::<bool>::parse(&null_then_text), Err(ParseError::UnexpectedNull));

    let text_then_null = JsonValue::Array(vec![JsonValue::from("x"), JsonValue::Null]);
    assert_eq!(Vec::<bool>::parse(&text_then_null), Err(ParseError::TypeMismatch));
}

#[test]
fn vec_fails_on_a_late_item_after_good_ones() {
    let json = JsonValue::Array(vec![
        JsonValue::Boolean(true),
        JsonValue::Boolean(false),
        JsonValue::Null,
        JsonValue::from("x"),
    ]);
    assert_eq!(Vec::<bool>::parse(&json), Err(ParseError::UnexpectedNull));

    let json = JsonValue::Array(vec![JsonValue::Boolean(true), JsonValue::from("x")]);
    assert_eq!(Vec::<bool>::parse(&json), Err(ParseError::TypeMismatch));
}

#[test]
fn vec_of_vec_passes_the_inner_error_on() {
    let json = JsonValue::Array(vec![
        JsonValue::Array(vec![JsonValue::Boolean(true)]),
        JsonValue::Array(vec![JsonValue::Boolean(true), JsonValue::Null]),
        JsonValue::from("x"),
    ]);
    assert_eq!(Vec::<Vec<bool>>::parse(&json), Err(ParseError::UnexpectedNull));

    let good = JsonValue::Array(vec![
        JsonValue::Array(vec![JsonValue::Boolean(true)]),
        JsonValue::new_array(),
    ]);
    assert_eq!(Vec::<Vec<bool>>::parse(&good), Ok(vec![vec![true], vec![]]));
}

#[test]
fn option_from_null_is_absent() {
    assert_eq!(Option::<bool>::parse(&JsonValue::Null), Ok(None));
    assert_eq!(Option::<String>::parse(&JsonValue::Null), Ok(None));
    assert_eq!(Option::<Number>::parse(&JsonValue::Null), Ok(None));
    assert_eq!(Option::<Vec<bool>>::parse(&JsonValue::Null), Ok(None));
    assert_eq!(Option::<Option<bool>>::parse(&JsonValue::Null), Ok(None));
}

#[test]
fn option_from_a_value_is_present() {
    assert_eq!(Option::<bool>::parse(&JsonValue::Boolean(true)), Ok(Some(true)));
    assert_eq!(Option::<String>::parse(&JsonValue::from("x")), Ok(Some("x".to_string())));
    assert_eq!(
        Option::<Option<bool>>::parse(&JsonValue::Boolean(false)),
        Ok(Some(Some(false)))
    );
}

#[test]
fn option_passes_the_inner_error_on() {
    assert_eq!(Option::<bool>::parse(&JsonValue::from("x")), Err(ParseError::TypeMismatch));
    assert_eq!(Option::<String>::parse(&JsonValue::new_object()), Err(ParseError::TypeMismatch));
    let json = JsonValue::Array(vec![JsonValue::Null]);
    assert_eq!(Option::<Vec<bool>>::parse(&json), Err(ParseError::UnexpectedNull));
}

#[test]
fn vec_of_option_takes_null_items() {
    let json = JsonValue::Array(vec![
        JsonValue::Boolean(true),
        JsonValue::Null,
        JsonValue::Boolean(false),
    ]);
    assert_eq!(Vec::<Option<bool>>::parse(&json), Ok(vec![Some(true), None, Some(false)]));
}

#[test]
fn object_is_never_accepted() {
    let object = JsonValue::new_object();
    assert_eq!(bool::parse(&object), Err(ParseError::TypeMismatch));
    assert_eq!(String::parse(&object), Err(ParseError::TypeMismatch));
    assert_eq!(Number::parse(&object), Err(ParseError::TypeMismatch));
    assert_eq!(Vec::<bool>::parse(&object), Err(ParseError::TypeMismatch));
    assert_eq!(Option::<bool>::parse(&object), Err(ParseError::TypeMismatch));
}

#[test]
fn decoding_leaves_the_input_as_it_was() {
    let json = JsonValue::Array(vec![JsonValue::from("x"), JsonValue::String(long_text())]);
    let before = json.clone();
    let _ = Vec::<String>::parse(&json);
    let _ = Vec::<bool>::parse(&json);
    assert_eq!(json, before);
}
