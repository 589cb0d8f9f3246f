//! The boundary to `serde_json`: a parsed document is carried as an opaque
//! value, and each accessor that the decoder calls is given a name.
//!
//! Nothing in this file is proved. The contracts say only that the parser
//! and the accessors are functions of their arguments; what they return is
//! named, not described.

use vstd::prelude::*;

verus! {

/// Makes `serde_json::Value` known as a type whose inside is not looked at.
#[verifier::external_type_specification]
#[verifier::external_body]
pub struct ExValue(serde_json::Value);

/// The document that `serde_json::from_str` reads from a text, if it reads one.
pub uninterp spec fn json_document(text: Seq<char>) -> Option<serde_json::Value>;

/// The member that `serde_json::Value::get` finds under a key.
pub uninterp spec fn json_member(document: serde_json::Value, key: Seq<char>) -> Option<serde_json::Value>;

/// What `serde_json::Value::as_u64` reads from a value.
pub uninterp spec fn json_unsigned(value: serde_json::Value) -> Option<u64>;

/// The IEEE-754 bit pattern of what `serde_json::Value::as_f64` reads from a value.
pub uninterp spec fn json_number(value: serde_json::Value) -> Option<u64>;

/// What `serde_json::Value::as_str` reads from a value.
pub uninterp spec fn json_text(value: serde_json::Value) -> Option<Seq<char>>;

/// Calls `serde_json::from_str` for a `serde_json::Value` and drops the
/// error's detail. Believed: the parser is a function of the text alone, so
/// its result is `json_document` of the text.
#[verifier::external_body]
pub(crate) fn parse_document(text: &str) -> (r: Option<serde_json::Value>)
    ensures
        r == json_document(text@),
{
    serde_json::from_str::<serde_json::Value>(text).ok()
}

/// Calls `serde_json::Value::get` with a string key. Believed: what it
/// finds depends on the document and the key alone, so it is `json_member`
/// of the two.
#[verifier::external_body]
pub(crate) fn member<'a>(document: &'a serde_json::Value, key: &str) -> (r: Option<&'a serde_json::Value>)
    ensures
        r.is_some() == json_member(*document, key@).is_some(),
        r matches Some(m) ==> json_member(*document, key@) == Some(*m),
{
    document.get(key)
}

/// Calls `serde_json::Value::as_u64`. Believed: what it reads depends on
/// the value alone, so it is `json_unsigned` of the value.
#[verifier::external_body]
pub(crate) fn as_unsigned(value: &serde_json::Value) -> (r: Option<u64>)
    ensures
        r == json_unsigned(*value),
{
    value.as_u64()
}

/// Calls `serde_json::Value::as_f64` and hands the number out as its bit
/// pattern. Believed: what it reads depends on the value alone, so it is
/// `json_number` of the value.
#[verifier::external_body]
pub(crate) fn as_number(value: &serde_json::Value) -> (r: Option<u64>)
    ensures
        r == json_number(*value),
{
    value.as_f64().map(|x| x.to_bits())
}

/// Calls `serde_json::Value::as_str` and copies the text. Believed: what
/// it reads depends on the value alone, so it is `json_text` of the value.
#[verifier::external_body]
pub(crate) fn as_text(value: &serde_json::Value) -> (r: Option<String>)
    ensures
        r.is_some() == json_text(*value).is_some(),
        r matches Some(s) ==> json_text(*value) == Some(s@),
{
    value.as_str().map(|s| s.to_string())
}

} // verus!
