use vstd::prelude::*;

verus! {

/// A JSON document as `serde_json` represents it; the library carries such
/// values without looking inside them.
#[verifier::external_type_specification]
#[verifier::external_body]
pub struct ExJsonValue(serde_json::Value);

/// Whether `serde_json` accepts `text` as one JSON document (a value,
/// surrounded by nothing but white space, nested at most as deep as its
/// recursion limit allows).
pub uninterp spec fn json_text_accepted(text: Seq<char>) -> bool;

/// The value that `serde_json` reads from `text`, where it accepts it.
pub uninterp spec fn json_parsed(text: Seq<char>) -> serde_json::Value;

/// The JSON string whose content is `text`.
pub uninterp spec fn json_string_of(text: Seq<char>) -> serde_json::Value;

/// The compact JSON text that `serde_json` writes for `value`.
pub uninterp spec fn json_text_of(value: serde_json::Value) -> Seq<char>;

/// Calls `serde_json::from_str::<serde_json::Value>`. It succeeds exactly
/// on the texts that `serde_json` accepts as a JSON document, and the value
/// it reads depends on the text alone.
#[verifier::external_body]
pub(crate) fn parse_json_value(text: &str) -> (r: core::result::Result<serde_json::Value, serde_json::Error>)
    ensures
        r is Ok <==> json_text_accepted(text@),
        r matches Ok(v) ==> v == json_parsed(text@),
{
    serde_json::from_str::<serde_json::Value>(text)
}

/// Builds the JSON string `serde_json::Value::String(text)`.
#[verifier::external_body]
pub(crate) fn json_string_value(text: String) -> (v: serde_json::Value)
    ensures
        v == json_string_of(text@),
{
    serde_json::Value::String(text)
}

/// Calls `<serde_json::Value as Clone>::clone`, which copies the document:
/// the copy is the same value.
#[verifier::external_body]
pub(crate) fn json_value_clone(value: &serde_json::Value) -> (v: serde_json::Value)
    ensures
        v == *value,
{
    value.clone()
}

/// Calls `serde_json::to_string` on a JSON value, which writes it as
/// compact JSON text. Writing fails only for maps whose keys are not
/// strings, and the keys of a `serde_json::Value` map are strings, so it
/// succeeds; the text depends on the value alone.
#[verifier::external_body]
pub(crate) fn json_value_text(value: &serde_json::Value) -> (r: core::result::Result<String, serde_json::Error>)
    ensures
        r is Ok,
        r is Ok ==> r->Ok_0@ == json_text_of(*value),
{
    serde_json::to_string(value)
}

} // verus!
