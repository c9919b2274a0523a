//! The JSON layer: structured values are `serde_json` values, parsed and
//! printed by `serde_json` itself.

use serde_json::Value;
use vstd::prelude::*;

verus! {

/// `serde_json::Value`, the structured value exchanged with the caller.
/// Nothing inside it is visible to the verifier.
#[verifier::external_type_specification]
#[verifier::external_body]
pub struct ExValue(serde_json::Value);

/// `serde_json::Error`, the cause of a failed parse or print.
#[verifier::external_type_specification]
#[verifier::external_body]
pub struct ExJsonError(serde_json::Error);

/// What a `serde_json::Error` says: its message, as it prints it.
pub uninterp spec fn json_error_text(why: serde_json::Error) -> Seq<char>;

/// What `serde_json::to_string` returns for a value: the compact JSON text
/// that it prints, or what the error says where it fails.
pub uninterp spec fn printed_text(value: Value) -> Result<Seq<char>, Seq<char>>;

/// The text that stands for a value wherever a contract has to say which
/// value is meant: the text that the JSON layer prints for it (the empty
/// text for a value that it cannot print).
pub open spec fn canonical_text(value: Value) -> Seq<char> {
    match printed_text(value) {
        Ok(text) => text,
        Err(_) => Seq::<char>::empty(),
    }
}

/// What `serde_json::from_str` returns for `text`: the value that it reads,
/// told by its canonical text, or what the error says where it rejects
/// `text`.
pub uninterp spec fn parsed_text(text: Seq<char>) -> Result<Seq<char>, Seq<char>>;

/// Calls `serde_json::from_str` for a `Value`. Trusted: the call succeeds
/// exactly on the texts for which `parsed_text` is `Ok`; the value that it
/// returns is the one whose canonical text `parsed_text` names, and the
/// error that it returns says what `parsed_text` names.
#[verifier::external_body]
pub(crate) fn parse_json(text: &str) -> (r: Result<Value, serde_json::Error>)
    ensures
        r is Ok <==> parsed_text(text@) is Ok,
        r is Ok ==> parsed_text(text@)->Ok_0 == canonical_text(r->Ok_0),
        r is Err ==> parsed_text(text@)->Err_0 == json_error_text(r->Err_0),
{
    serde_json::from_str::<Value>(text)
}

/// Calls `serde_json::to_string` on a `Value`. Trusted: the call succeeds
/// exactly on the values for which `printed_text` is `Ok`, and returns
/// that text, or the error that says what `printed_text` names. Nothing is
/// claimed of which values those are.
#[verifier::external_body]
pub(crate) fn print_json(value: &Value) -> (r: Result<String, serde_json::Error>)
    ensures
        r is Ok <==> printed_text(*value) is Ok,
        r is Ok ==> printed_text(*value)->Ok_0 == r->Ok_0@,
        r is Err ==> printed_text(*value)->Err_0 == json_error_text(r->Err_0),
{
    serde_json::to_string(value)
}

} // verus!
