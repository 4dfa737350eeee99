//! The structured shapes a JSON reply may take: a prediction object with
//! string fields `result` and `confidence`, or an error object with a string
//! field `error`. Extraction is delegated to serde_json; the library's
//! contracts name what that extraction yields.

use vstd::prelude::*;

verus! {

/// The `result` and `confidence` string fields that JSON parsing extracts from
/// `body`, or `None` where `body` is not a JSON object holding both as strings.
pub uninterp spec fn prediction_fields(body: Seq<char>) -> Option<(Seq<char>, Seq<char>)>;

/// The `error` string field that JSON parsing extracts from `body`, or `None`
/// where `body` is not a JSON object holding it as a string.
pub uninterp spec fn error_field(body: Seq<char>) -> Option<Seq<char>>;

/// Relies on serde_json's `from_str` and `Value::{get, as_str}`: whether a
/// string is a JSON object carrying string fields `result` and `confidence`,
/// and what those fields hold, depend on the string's characters alone.
#[verifier::external_body]
pub(crate) fn parse_prediction(body: &str) -> (r: Option<(String, String)>)
    ensures
        match r {
            Some(p) => prediction_fields(body@) == Some((p.0@, p.1@)),
            None => prediction_fields(body@) is None,
        },
{
    let value: serde_json::Value = serde_json::from_str(body).ok()?;
    let result = value.get("result")?.as_str()?;
    let confidence = value.get("confidence")?.as_str()?;
    Some((result.to_owned(), confidence.to_owned()))
}

/// Relies on serde_json's `from_str` and `Value::{get, as_str}`: whether a
/// string is a JSON object carrying a string field `error`, and what that
/// field holds, depend on the string's characters alone.
#[verifier::external_body]
pub(crate) fn parse_error(body: &str) -> (r: Option<String>)
    ensures
        match r {
            Some(e) => error_field(body@) == Some(e@),
            None => error_field(body@) is None,
        },
{
    let value: serde_json::Value = serde_json::from_str(body).ok()?;
    Some(value.get("error")?.as_str()?.to_owned())
}

} // verus!
