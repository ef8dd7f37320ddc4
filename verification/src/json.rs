//! The trusted boundary around the JSON crates: quoting a string as a JSON
//! string literal (serde_json) and pretty-printing a JSON document for the
//! terminal (colored_json).

use vstd::prelude::*;
use vstd::string::StringExecFns;

verus! {

/// The JSON string literal that encodes the characters of `s`: surrounding
/// quotes plus the escapes that JSON requires. Named rather than written out,
/// because the full escaping rules are the business of serde_json.
pub uninterp spec fn json_string_of(s: Seq<char>) -> Seq<char>;

/// Whether the text is a single valid JSON document, exactly as
/// `serde_json::from_str::<serde_json::Value>` accepts it.
pub uninterp spec fn json_parses(s: Seq<char>) -> bool;

/// The error returned when response text cannot be rendered as JSON.
#[derive(Clone, Copy, Debug, PartialEq, Eq, Structural)]
pub struct EncodingError;

impl EncodingError {
    /// A short human-readable description, for the caller to print.
    pub fn describe(&self) -> (r: String)
        ensures
            r@ == "response text is not valid JSON"@,
    {
        String::from_str("response text is not valid JSON")
    }
}

/// Relies on `serde_json::to_string` applied to a `&str`: the result is the
/// JSON string literal for `s` (quoted and escaped), it depends on the
/// characters of `s` alone, and — as serde_json documents for its own output —
/// it parses back as one valid JSON document. Serializing a string into an
/// in-memory buffer cannot fail, so the unwrap cannot panic.
#[verifier::external_body]
pub(crate) fn json_quote(s: &str) -> (r: String)
    ensures
        r@ == json_string_of(s@),
        json_parses(r@),
{
    serde_json::to_string(s).unwrap()
}

/// Relies on `colored_json::ToColoredJson::to_colored_json_auto`: it parses
/// the text with `serde_json::from_str::<Value>` and returns `Err` exactly
/// when that parse fails; on success it returns the value pretty-printed,
/// colored only when standard output is a terminal. The rendered text depends
/// on the terminal, so nothing is stated of its contents.
#[verifier::external_body]
fn to_colored(text: &str) -> (r: Result<String, serde_json::Error>)
    ensures
        r is Ok <==> json_parses(text@),
{
    colored_json::ToColoredJson::to_colored_json_auto(text)
}

/// The serde_json error type, opaque to the verifier; it is mapped to
/// [`EncodingError`] before it reaches any caller.
#[verifier::external_type_specification]
#[verifier::external_body]
pub struct ExJsonError(serde_json::Error);

/// Pretty-print one JSON document for the terminal, coloring it when standard
/// output is one. Succeeds exactly on valid JSON text.
pub fn colorize(text: &str) -> (r: Result<String, EncodingError>)
    ensures
        r is Ok <==> json_parses(text@),
{
    match to_colored(text) {
        Ok(rendered) => Ok(rendered),
        Err(_) => Err(EncodingError),
    }
}

} // verus!
