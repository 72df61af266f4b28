use vstd::prelude::*;

verus! {

/// serde_json's document type, carried through without looking inside.
#[verifier::external_type_specification]
#[verifier::external_body]
pub struct ExValue(serde_json::Value);

/// serde_json's error type, only ever discarded.
#[verifier::external_type_specification]
#[verifier::external_body]
pub struct ExJsonError(serde_json::Error);

/// The document serde_json reads from the text, if the text is one JSON value.
pub uninterp spec fn json_parse_of(text: Seq<char>) -> Option<serde_json::Value>;

/// The JSON text serde_json writes for a value, if it can write it.
pub uninterp spec fn json_text_of(v: serde_json::Value) -> Option<Seq<char>>;

/// The member under `key` of a document, if it is an object holding that key.
pub uninterp spec fn json_member_of(doc: serde_json::Value, key: Seq<char>) -> Option<serde_json::Value>;

/// The text of a value, if it is a JSON string.
pub uninterp spec fn json_str_of(v: serde_json::Value) -> Option<Seq<char>>;

/// The value of a JSON number, if it is an integer that fits in `u64`.
pub uninterp spec fn json_u64_of(v: serde_json::Value) -> Option<u64>;

/// Relies on serde_json::from_str: the document read from the text, a function
/// of the text alone.
#[verifier::external_body]
pub(crate) fn parse_json(text: &str) -> (r: Result<serde_json::Value, serde_json::Error>)
    ensures
        r is Ok <==> json_parse_of(text@) is Some,
        r matches Ok(v) ==> json_parse_of(text@) == Some(v),
{
    serde_json::from_str(text)
}

/// Relies on serde_json::to_string: writes a value back as JSON text.
#[verifier::external_body]
pub(crate) fn json_to_text(v: &serde_json::Value) -> (r: Result<String, serde_json::Error>)
    ensures
        r is Ok <==> json_text_of(*v) is Some,
        r matches Ok(t) ==> json_text_of(*v) == Some(t@),
{
    serde_json::to_string(v)
}

/// Relies on serde_json::Value::get: the member under `key` of an object.
#[verifier::external_body]
pub(crate) fn json_member<'a>(doc: &'a serde_json::Value, key: &str) -> (r: Option<&'a serde_json::Value>)
    ensures
        r is Some <==> json_member_of(*doc, key@) is Some,
        r matches Some(m) ==> json_member_of(*doc, key@) == Some(*m),
{
    doc.get(key)
}

/// Relies on serde_json::Value::as_str: the text of a string value.
#[verifier::external_body]
pub(crate) fn json_as_text(v: &serde_json::Value) -> (r: Option<String>)
    ensures
        r is Some <==> json_str_of(*v) is Some,
        r matches Some(s) ==> json_str_of(*v) == Some(s@),
{
    v.as_str().map(|s| s.to_string())
}

/// Relies on serde_json::Value::as_u64: the value of a non-negative integer.
#[verifier::external_body]
pub(crate) fn json_as_u64(v: &serde_json::Value) -> (r: Option<u64>)
    ensures
        r == json_u64_of(*v),
{
    v.as_u64()
}

} // verus!
