//! The JSON documents that requests carry, held as `serde_json` values.
use vstd::prelude::*;

verus! {

/// A JSON document, carried through the library as `serde_json` builds it.
#[verifier::external_type_specification]
#[verifier::external_body]
pub struct ExJsonValue(serde_json::Value);

/// What `serde_json::from_str::<Value>` makes of `text`: the document it
/// reads, or the words (its error's `Display`) with which it refuses the text.
pub uninterp spec fn json_document(text: Seq<char>) -> Result<serde_json::Value, Seq<char>>;

/// The value that `Value::pointer` finds in `document` at the JSON pointer `pointer`.
pub uninterp spec fn json_pointer_target(
    document: serde_json::Value,
    pointer: Seq<char>,
) -> Option<serde_json::Value>;

/// Reads a JSON document from `text` with `serde_json::from_str::<Value>`,
/// writing a refusal by its error's `Display`. Trusted: the document, or the
/// words of the refusal, are a function of the text.
#[verifier::external_body]
pub fn parse_json_text(text: &str) -> (res: Result<serde_json::Value, String>)
    ensures
        match res {
            Ok(v) => json_document(text@) == Ok::<serde_json::Value, Seq<char>>(v),
            Err(words) => json_document(text@) == Err::<serde_json::Value, Seq<char>>(words@),
        },
{
    serde_json::from_str::<serde_json::Value>(text).map_err(|error| error.to_string())
}

/// A copy of the value that `Value::pointer` finds in `document` at `pointer`.
/// Trusted: the result is a function of the document and the pointer; the
/// empty pointer names the whole document and a non-empty pointer that does
/// not start with `/` names nothing (both as `Value::pointer`'s source shows).
#[verifier::external_body]
pub fn json_pointer(document: &serde_json::Value, pointer: &str) -> (res: Option<serde_json::Value>)
    ensures
        res == json_pointer_target(*document, pointer@),
        pointer@.len() == 0 ==> res == Some(*document),
        pointer@.len() > 0 && pointer@[0] != '/' ==> res is None,
{
    document.pointer(pointer).cloned()
}

} // verus!
