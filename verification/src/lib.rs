//! Conversions between native Rust values and the `JsonValue` of the `json`
//! crate.
//!
//! [`from_json::FromJSON`] decodes a JSON value into a native value and fails
//! with a [`from_json::ParseError`] where the value is null or of the wrong
//! kind; [`to_json::ToJSON`] encodes a native value and cannot fail. Booleans,
//! numbers and strings are converted directly, `Option` and `Vec` through the
//! conversion of what they hold.
//!
//! Every conversion is verified against a rule stated on the mathematical
//! content of the JSON value, which [`value`] defines; [`laws`] proves what
//! follows from the rules.

pub mod from_json;
pub mod laws;
pub mod to_json;
pub mod value;
