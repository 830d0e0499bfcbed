//! HTTP outcomes of the command router.
//!
//! Every dispatch produces exactly one outcome: a status code, an optional
//! body, and optionally the permissive cross-origin header that read
//! endpoints attach for same-machine web clients of another origin.
//! Action-only endpoints answer no content; endpoints returning domain data
//! answer JSON; a structured collaborator result carrying a numeric `code`
//! member dictates the status itself.

use crate::jsonval::code_field_of;
use crate::jsonval::get_code;
use crate::jsonval::json_text;
use crate::jsonval::json_text_of;
use crate::jsonval::u64_of;
use crate::jsonval::value_as_u64;
use serde_json::Value;
use vstd::prelude::*;
use vstd::string::StringExecFns;

verus! {

/// The body of a route outcome.
pub enum Body {
    /// No body.
    Empty,
    /// A JSON document.
    Json { text: String },
    /// A plain diagnostic text.
    Text { text: String },
}

/// The one response of a route dispatch.
pub struct RouteOutcome {
    /// The HTTP status code.
    pub status: u16,
    /// The response body.
    pub body: Body,
    /// Whether the permissive cross-origin header is attached.
    pub cors: bool,
}

/// No content: an endpoint that merely triggered an action.
pub fn no_content() -> (r: RouteOutcome)
    ensures
        r.status == 204 && r.body is Empty && !r.cors,
{
    RouteOutcome { status: 204, body: Body::Empty, cors: false }
}

/// Not found: an unmatched route.
pub fn not_found() -> (r: RouteOutcome)
    ensures
        r.status == 404 && r.body is Empty && !r.cors,
{
    RouteOutcome { status: 404, body: Body::Empty, cors: false }
}

/// Bad request: malformed input; only that request fails.
pub fn bad_request() -> (r: RouteOutcome)
    ensures
        r.status == 400 && r.body is Empty && !r.cors,
{
    RouteOutcome { status: 400, body: Body::Empty, cors: false }
}

/// A JSON answer under status 200 with the cross-origin header.
pub fn json_ok(text: String) -> (r: RouteOutcome)
    ensures
        r.status == 200 && r.body == (Body::Json { text }) && r.cors,
{
    RouteOutcome { status: 200, body: Body::Json { text }, cors: true }
}

/// The JSON text of a collaborator value, as the JSON routes answer it.
pub fn value_body(v: &Value) -> (r: String)
    ensures
        r@ == json_text_of(*v),
{
    json_text(v)
}

/// The body of the current-song route: the collaborator data wrapped as the
/// sole `info` member of an object.
pub fn info_body(v: &Value) -> (r: String)
    ensures
        r@ == "{\"info\":"@ + json_text_of(*v) + "}"@,
{
    let mut s = "{\"info\":".to_owned();
    let t = json_text(v);
    s.append(t.as_str());
    s.append("}");
    s
}

/// The JSON text of an optional boolean: `true`, `false` or `null`.
pub open spec fn opt_bool_text(v: Option<bool>) -> Seq<char> {
    match v {
        Some(true) => "true"@,
        Some(false) => "false"@,
        None => "null"@,
    }
}

/// The body of a route answering one optional boolean under the given key:
/// an object with that sole member.
pub fn opt_bool_body(key: &str, v: Option<bool>) -> (r: String)
    ensures
        r@ == "{\""@ + key@ + "\":"@ + opt_bool_text(v) + "}"@,
{
    let mut s = "{\"".to_owned();
    s.append(key);
    s.append("\":");
    match v {
        Some(true) => s.append("true"),
        Some(false) => s.append("false"),
        None => s.append("null"),
    }
    s.append("}");
    s
}

/// The status a structured collaborator result dictates: its numeric `code`
/// member, truncated to the 16 bits an HTTP status code holds, or 200 when
/// no numeric `code` is present.
pub open spec fn status_of_value(v: Value) -> u16 {
    match code_field_of(v) {
        Some(c) => match u64_of(c) {
            Some(n) => (n % 0x10000) as u16,
            None => 200,
        },
        None => 200,
    }
}

/// Reads the status a structured collaborator result dictates.
pub fn value_status(v: &Value) -> (r: u16)
    ensures
        r == status_of_value(*v),
{
    match get_code(v) {
        Some(c) => match value_as_u64(c) {
            Some(n) => (n % 0x10000) as u16,
            None => 200,
        },
        None => 200,
    }
}

/// The outcome of the set-rating route.  A structured result passes through
/// as JSON under the status its own `code` dictates.  The underlying
/// delete-equivalent call answers no result at all: without a result, an
/// unset (zero) rating is success with no content, and any other rating is
/// a failure with a diagnostic.
pub fn set_rating_outcome(rating: i8, result: Option<&Value>) -> (r: RouteOutcome)
    ensures
        match result {
            Some(v) => {
                &&& r.status == status_of_value(*v)
                &&& r.body matches Body::Json { text } && text@ == json_text_of(*v)
                &&& r.cors
            },
            None => if rating == 0 {
                r.status == 204 && r.body is Empty && !r.cors
            } else {
                &&& r.status == 500
                &&& r.body matches Body::Text { text } && text@ == "Unable to Set Rating"@
                &&& !r.cors
            },
        },
{
    match result {
        Some(v) => {
            let status = value_status(v);
            let text = json_text(v);
            RouteOutcome { status, body: Body::Json { text }, cors: true }
        },
        None => {
            if rating != 0 {
                let text = "Unable to Set Rating".to_owned();
                RouteOutcome { status: 500, body: Body::Text { text }, cors: false }
            } else {
                no_content()
            }
        },
    }
}

/// The outcome of the get-rating route: a structured result passes through
/// as JSON under the status its own `code` dictates; without a result the
/// route fails with a diagnostic.
pub fn get_rating_outcome(result: Option<&Value>) -> (r: RouteOutcome)
    ensures
        match result {
            Some(v) => {
                &&& r.status == status_of_value(*v)
                &&& r.body matches Body::Json { text } && text@ == json_text_of(*v)
                &&& r.cors
            },
            None => {
                &&& r.status == 500
                &&& r.body matches Body::Text { text } && text@ == "Unable to Get Rating"@
                &&& !r.cors
            },
        },
{
    match result {
        Some(v) => {
            let status = value_status(v);
            let text = json_text(v);
            RouteOutcome { status, body: Body::Json { text }, cors: true }
        },
        None => {
            let text = "Unable to Get Rating".to_owned();
            RouteOutcome { status: 500, body: Body::Text { text }, cors: false }
        },
    }
}

/// A structured result whose `code` member holds a number within the status
/// range dictates exactly that number as the HTTP status.
pub proof fn lemma_rating_status_passthrough(v: Value, cv: Value, c: u64)
    requires
        code_field_of(v) == Some(cv),
        u64_of(cv) == Some(c),
        c <= 0xFFFF,
    ensures
        status_of_value(v) == c,
{
}

} // verus!
