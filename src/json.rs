//! Looking up string fields of JSON documents through serde_json.

use vstd::prelude::*;

use crate::text::opt_view;

verus! {

#[verifier::external_type_specification]
#[verifier::external_body]
pub struct ExJsonError(serde_json::Error);

/// Whether serde_json accepts the text as one JSON document.
pub uninterp spec fn json_parses(text: Seq<char>) -> bool;

/// The string that a JSON pointer designates in a document, if it designates a
/// string.
pub uninterp spec fn json_string_at(text: Seq<char>, pointer: Seq<char>) -> Option<Seq<char>>;

/// Relies on `serde_json::from_str` into a `serde_json::Value`, which fails
/// exactly on text that is not one JSON document, and on `Value::pointer`
/// followed by `Value::as_str`, which give the string a pointer designates.
#[verifier::external_body]
pub(crate) fn lookup_json_string(text: &str, pointer: &str) -> (r: Result<
    Option<String>,
    serde_json::Error,
>)
    ensures
        r is Ok == json_parses(text@),
        r matches Ok(o) ==> opt_view(o) == json_string_at(text@, pointer@),
{
    let v: serde_json::Value = serde_json::from_str(text)?;
    Ok(v.pointer(pointer).and_then(|x| x.as_str()).map(|x| x.to_string()))
}

} // verus!
