use vstd::prelude::*;

verus! {

/// A JSON document parsed by serde_json; the library carries it without
/// looking inside.
#[verifier::external_type_specification]
#[verifier::external_body]
pub struct ExJsonValue(serde_json::Value);

/// The error serde_json reports for text it cannot parse.
#[verifier::external_type_specification]
#[verifier::external_body]
pub struct ExJsonError(serde_json::Error);

/// Whether serde_json accepts `text` as a JSON document (well-formed JSON,
/// nested no deeper than serde_json's recursion limit).
pub uninterp spec fn serde_json_accepts(text: Seq<char>) -> bool;

/// The document that serde_json reads from `text`.
pub uninterp spec fn serde_json_value(text: Seq<char>) -> serde_json::Value;

/// What serde_json reads from `text` as a list of strings: the strings, or,
/// where `text` is not a JSON array of strings, the text of serde_json's
/// error, which says what went wrong and where.
pub uninterp spec fn serde_json_string_list(text: Seq<char>) -> Result<Seq<Seq<char>>, Seq<char>>;

/// Calls `serde_json::from_str::<serde_json::Value>`. The contract claims
/// that parsing succeeds exactly on the texts that `serde_json_accepts`, and
/// that the document it gives is `serde_json_value(text)`, a function of the
/// text alone.
#[verifier::external_body]
pub(crate) fn parse_json_value(text: &str) -> (parsed: Result<serde_json::Value, serde_json::Error>)
    ensures
        parsed is Ok <==> serde_json_accepts(text@),
        parsed matches Ok(v) ==> v == serde_json_value(text@),
{
    serde_json::from_str(text)
}

/// Calls `serde_json::from_str::<Vec<String>>`, and renders a failure with
/// the error's `Display` (`to_string`). The contract claims that the outcome,
/// strings or error text, is `serde_json_string_list(text)`, a function of
/// the text alone.
#[verifier::external_body]
pub(crate) fn parse_json_string_list(text: &str) -> (parsed: Result<Vec<String>, String>)
    ensures
        match parsed {
            Ok(list) => serde_json_string_list(text@) == Ok::<Seq<Seq<char>>, Seq<char>>(list.deep_view()),
            Err(detail) => serde_json_string_list(text@) == Err::<Seq<Seq<char>>, Seq<char>>(detail@),
        },
{
    match serde_json::from_str(text) {
        Ok(list) => Ok(list),
        Err(error) => Err(error.to_string()),
    }
}

} // verus!
