//! The decisions of the request executor: how each verb carries its payload,
//! how a received response becomes a JSON value or an [`Error`], and how a
//! payload that does not decode is reported.
use crate::errors::{Error, ErrorView};
use crate::json::{json_parse_result, parse_json, Json, JsonView};
use crate::text::{decimal, decimal_text, strip_backslashes, without_backslashes};
use vstd::prelude::*;
use vstd::string::StringExecFns;

verus! {

/// The HTTP verbs that the executor sends.
#[derive(PartialEq, Eq, Debug, Clone, Copy, Structural)]
pub enum Method {
    Get,
    Post,
    Put,
    Patch,
    Delete,
}

/// How a verb's payload is attached to the outgoing request.
#[derive(PartialEq, Eq, Debug, Clone, Copy, Structural)]
pub enum Mutation {
    /// The query mapping, if any, goes into the URL; no body is sent.
    AttachQuery,
    /// The payload is sent as a JSON body.
    AttachJsonBody,
    /// The payload is serialised to bytes and sent as a raw body, so that the
    /// transport leaves the content type as it was set.
    AttachRawBody,
}

impl Method {
    pub open spec fn spec_mutation(self) -> Mutation {
        match self {
            Method::Get => Mutation::AttachQuery,
            Method::Patch => Mutation::AttachRawBody,
            _ => Mutation::AttachJsonBody,
        }
    }

    /// How this verb attaches its payload.
    pub fn mutation(self) -> (r: Mutation)
        ensures
            r == self.spec_mutation(),
    {
        match self {
            Method::Get => Mutation::AttachQuery,
            Method::Patch => Mutation::AttachRawBody,
            _ => Mutation::AttachJsonBody,
        }
    }
}

/// The registered reason phrase of an HTTP status code, if it has one.
pub uninterp spec fn canonical_reason_of(code: u16) -> Option<Seq<char>>;

/// Relies on `http::StatusCode::canonical_reason` (as `reqwest::StatusCode`):
/// the phrase registered for a status code, or none.
#[verifier::external_body]
fn canonical_reason(code: u16) -> (r: Option<String>)
    ensures
        match r {
            Some(p) => canonical_reason_of(code) == Some(p@),
            None => canonical_reason_of(code) is None,
        },
{
    reqwest::StatusCode::from_u16(code).ok().and_then(|s| s.canonical_reason()).map(
        |p| p.to_string(),
    )
}

/// A status code in the 2xx range.
pub open spec fn is_success(code: u16) -> bool {
    200 <= code && code < 300
}

/// The reason given for an error status: its registered phrase, or a generic
/// one where none is registered.
pub open spec fn reason_phrase(code: u16) -> Seq<char> {
    match canonical_reason_of(code) {
        Some(p) => p,
        None => "server returned an error response"@,
    }
}

/// The words put before a JSON parser's message when a payload is not JSON.
pub open spec fn corrupt_prefix() -> Seq<char> {
    "corrupted response JSON payload received. "@
}

pub open spec fn result_view(r: Result<Json, Error>) -> Result<JsonView, ErrorView> {
    match r {
        Ok(j) => Ok(j@),
        Err(e) => Err(e@),
    }
}

/// What a response with status `status` and body text `text` (or the
/// transport's message where the body could not be read) comes to.
pub open spec fn response_outcome(status: u16, text: Result<Seq<char>, Seq<char>>) -> Result<
    JsonView,
    ErrorView,
> {
    match text {
        Err(m) => Err(ErrorView { canonical_reason: m, status: None, body: None }),
        Ok(t) => match json_parse_result(t) {
            Err(m) => Err(
                ErrorView {
                    canonical_reason: corrupt_prefix() + m,
                    status: Some("400"@),
                    body: None,
                },
            ),
            Ok(j) => if is_success(status) {
                Ok(j)
            } else {
                Err(
                    ErrorView {
                        canonical_reason: reason_phrase(status),
                        status: Some(decimal(status as nat)),
                        body: Some(j),
                    },
                )
            },
        },
    }
}

/// Turns a received response into its JSON payload or an [`Error`]. `status`
/// is the status code captured before the body was read; `text` is the body,
/// or the message of the failure to read it.
pub fn read_response(status: u16, text: Result<String, String>) -> (r: Result<Json, Error>)
    ensures
        result_view(r) == response_outcome(
            status,
            match text {
                Ok(t) => Ok(t@),
                Err(m) => Err(m@),
            },
        ),
{
    let body = match text {
        Ok(t) => t,
        Err(m) => {
            return Err(Error::transport(m));
        },
    };
    let payload = match parse_json(body.as_str()) {
        Ok(j) => j,
        Err(m) => {
            let mut reason = String::from_str("corrupted response JSON payload received. ");
            reason.append(m.as_str());
            return Err(
                Error::Response {
                    canonical_reason: reason,
                    status: Some(String::from_str("400")),
                    body: None,
                },
            );
        },
    };
    if 200 <= status && status < 300 {
        Ok(payload)
    } else {
        let reason = match canonical_reason(status) {
            Some(p) => p,
            None => String::from_str("server returned an error response"),
        };
        Err(
            Error::Response {
                canonical_reason: reason,
                status: Some(decimal_text(status)),
                body: Some(payload),
            },
        )
    }
}

/// What a failure to decode a received payload into the caller's type is
/// reported as, for a request sent with `method`.
pub open spec fn decode_outcome(method: Method, reason: Seq<char>) -> ErrorView {
    if method == Method::Patch {
        ErrorView {
            canonical_reason: without_backslashes(reason),
            status: Some("400"@),
            body: None,
        }
    } else {
        ErrorView { canonical_reason: reason, status: None, body: None }
    }
}

/// The [`Error`] for a payload that did not decode into the caller's type;
/// `reason` is the decoder's message.
pub fn decode_failure(method: Method, reason: String) -> (r: Error)
    ensures
        r@ == decode_outcome(method, reason@),
{
    match method {
        Method::Patch => Error::Response {
            canonical_reason: strip_backslashes(reason.as_str()),
            status: Some(String::from_str("400")),
            body: None,
        },
        _ => Error::transport(reason),
    }
}

} // verus!
