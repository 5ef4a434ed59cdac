//! Flat JSON objects of optional texts, rendered by `serde_json`.

use vstd::prelude::*;

verus! {

/// The error with which `serde_json` refuses to serialise a value.
#[verifier::external_type_specification]
#[verifier::external_body]
pub struct ExJsonError(serde_json::Error);

/// The text that `serde_json::to_string_pretty` gives for the JSON
/// object collected from these entries: each key with its text, or with
/// nothing where the value is `null`.
pub uninterp spec fn pretty_object_text(entries: Seq<(Seq<char>, Option<Seq<char>>)>) -> Seq<char>;

/// The text that `serde_json::to_string` gives for the JSON object
/// collected from these entries.
pub uninterp spec fn compact_object_text(entries: Seq<(Seq<char>, Option<Seq<char>>)>) -> Seq<
    char,
>;

/// Collects the entries into a `serde_json::Value` object, an absent
/// text becoming `null`, and renders it with
/// `serde_json::to_string_pretty`. The contract claims that the call
/// succeeds and names the text that comes back. It succeeds because the
/// renderer fails only where its writer fails or a key is no text: it
/// writes into a byte vector, which takes every write, and every key
/// here is a text.
#[verifier::external_body]
pub(crate) fn render_pretty(entries: &Vec<(String, Option<String>)>) -> (out: Result<
    String,
    serde_json::Error,
>)
    ensures
        out is Ok,
        out matches Ok(text) ==> text@ == pretty_object_text(entries.deep_view()),
{
    let object: serde_json::Value = entries.iter().map(|(k, v)| (k.clone(), v.clone())).collect();
    serde_json::to_string_pretty(&object)
}

/// Collects the entries into a `serde_json::Value` object, an absent
/// text becoming `null`, and renders it with `serde_json::to_string`.
/// The contract claims that the call succeeds and names the text that
/// comes back. It succeeds because the renderer fails only where its
/// writer fails or a key is no text: it writes into a byte vector,
/// which takes every write, and every key here is a text.
#[verifier::external_body]
pub(crate) fn render_compact(entries: &Vec<(String, Option<String>)>) -> (out: Result<
    String,
    serde_json::Error,
>)
    ensures
        out is Ok,
        out matches Ok(text) ==> text@ == compact_object_text(entries.deep_view()),
{
    let object: serde_json::Value = entries.iter().map(|(k, v)| (k.clone(), v.clone())).collect();
    serde_json::to_string(&object)
}

/// Renders the error through its `Display` impl. Nothing is claimed of
/// the message.
#[verifier::external_body]
pub(crate) fn describe(error: &serde_json::Error) -> String {
    error.to_string()
}

/// Makes one entry of a JSON object.
pub fn entry(key: &str, value: Option<String>) -> (out: (String, Option<String>))
    ensures
        out.deep_view() == (key@, value.deep_view()),
{
    (key.to_owned(), value)
}

} // verus!
