//! Classification of the remote endpoint's reply: the pair (status success,
//! content type is JSON) selects how the body is read, and the outcome is a
//! success string or an error string.

use vstd::prelude::*;
use vstd::string::*;
use crate::json::{error_field, parse_error, parse_prediction, prediction_fields};
use crate::text::{contains_ci, contains_seq, lower_chars};

verus! {

/// An HTTP status in the 2xx range counts as success.
pub open spec fn is_success_status(status: u16) -> bool {
    200 <= status < 300
}

/// A content type announces JSON when it contains `application/json`,
/// compared case-insensitively, so that charset parameters and unusual
/// casing are tolerated.
pub open spec fn is_json_content_type(ct: Seq<char>) -> bool {
    contains_seq(lower_chars(ct), lower_chars("application/json"@))
}

/// An absent content-type header is treated as "not JSON".
pub open spec fn announces_json(ct: Option<Seq<char>>) -> bool {
    match ct {
        Some(s) => is_json_content_type(s),
        None => false,
    }
}

/// The success string rendered from a parsed prediction.
pub open spec fn success_message(result: Seq<char>, confidence: Seq<char>) -> Seq<char> {
    "Result: "@ + result + ", Confidence: "@ + confidence
}

/// The error string returned when a JSON success body does not carry the
/// expected prediction shape.
pub open spec fn prediction_parse_failure_message() -> Seq<char> {
    "malformed prediction response"@
}

/// The error string returned when a JSON failure body does not carry the
/// expected error shape.
pub open spec fn error_parse_failure_message() -> Seq<char> {
    "malformed error response"@
}

/// What classification yields for a reply, for every combination of status,
/// content type and body.
pub open spec fn spec_classify(status: u16, ct: Option<Seq<char>>, body: Seq<char>) -> Result<
    Seq<char>,
    Seq<char>,
> {
    if is_success_status(status) {
        if announces_json(ct) {
            match prediction_fields(body) {
                Some(p) => Ok(success_message(p.0, p.1)),
                None => Err(prediction_parse_failure_message()),
            }
        } else {
            Ok(body)
        }
    } else {
        if announces_json(ct) {
            match error_field(body) {
                Some(e) => Err(e),
                None => Err(error_parse_failure_message()),
            }
        } else {
            Err(body)
        }
    }
}

/// The views of a classification outcome's strings.
pub open spec fn outcome_view(r: Result<String, String>) -> Result<Seq<char>, Seq<char>> {
    match r {
        Ok(s) => Ok(s@),
        Err(s) => Err(s@),
    }
}

/// The view of an optional content-type header value.
pub open spec fn header_view(ct: Option<&str>) -> Option<Seq<char>> {
    match ct {
        Some(s) => Some(s@),
        None => None,
    }
}

/// Decide whether a content-type header value announces JSON.
pub fn content_type_is_json(ct: &str) -> (r: bool)
    ensures
        r == is_json_content_type(ct@),
{
    contains_ci(ct, "application/json")
}

fn render_success(result: &str, confidence: &str) -> (r: String)
    ensures
        r@ == success_message(result@, confidence@),
{
    let mut s = "Result: ".to_owned();
    s.append(result);
    s.append(", Confidence: ");
    s.append(confidence);
    proof {
        assert(s@ =~= success_message(result@, confidence@));
    }
    s
}

/// Classify one reply from the remote endpoint into the displayed success
/// string or error string.
pub fn classify_response(status: u16, content_type: Option<&str>, body: String) -> (r: Result<
    String,
    String,
>)
    ensures
        outcome_view(r) == spec_classify(status, header_view(content_type), body@),
{
    let is_json = match content_type {
        Some(ct) => content_type_is_json(ct),
        None => false,
    };
    let success = 200 <= status && status < 300;
    if success {
        if is_json {
            match parse_prediction(body.as_str()) {
                Some(p) => Ok(render_success(p.0.as_str(), p.1.as_str())),
                None => Err("malformed prediction response".to_owned()),
            }
        } else {
            Ok(body)
        }
    } else {
        if is_json {
            match parse_error(body.as_str()) {
                Some(e) => Err(e),
                None => Err("malformed error response".to_owned()),
            }
        } else {
            Err(body)
        }
    }
}

/// What the transport handed back: either a reply from the endpoint, or a
/// failure (transport error or unreadable body) with its description.
pub enum TransportEvent {
    Reply { status: u16, content_type: Option<String>, body: String },
    Failed { message: String },
}

/// Translate a transport event into the operation's outcome: a reply is
/// classified; a transport failure becomes an error carrying its description.
pub fn translate(event: TransportEvent) -> (r: Result<String, String>)
    ensures
        match event {
            TransportEvent::Reply { status, content_type, body } => outcome_view(r)
                == spec_classify(
                status,
                match content_type {
                    Some(ct) => Some(ct@),
                    None => None,
                },
                body@,
            ),
            TransportEvent::Failed { message } => outcome_view(r) == Err::<
                Seq<char>,
                Seq<char>,
            >(message@),
        },
{
    match event {
        TransportEvent::Reply { status, content_type, body } => match content_type {
            Some(ct) => classify_response(status, Some(ct.as_str()), body),
            None => classify_response(status, None, body),
        },
        TransportEvent::Failed { message } => Err(message),
    }
}

/// Law: classification is a function of the reply alone; repeating the same
/// call on the same reply always yields the same outcome, the one the
/// classification table fixes.
pub fn classification_is_repeatable(status: u16, content_type: Option<&str>, body: &String) -> (r:
    (Result<String, String>, Result<String, String>))
    ensures
        outcome_view(r.0) == spec_classify(status, header_view(content_type), body@),
        outcome_view(r.1) == spec_classify(status, header_view(content_type), body@),
        outcome_view(r.0) == outcome_view(r.1),
{
    let first = classify_response(status, content_type, body.clone());
    let second = classify_response(status, content_type, body.clone());
    (first, second)
}

} // verus!
