//! The failures that a request can end in.
use crate::json::{Json, JsonView};
use vstd::prelude::*;

verus! {

/// Every failure of a request. Which fields are set tells the kind apart:
/// neither status nor body for a transport or decoding failure, status `"400"`
/// and no body for a response that was not JSON, both for an error status
/// reported by the server.
#[derive(PartialEq, Eq, Debug)]
pub enum Error {
    Response {
        /// A short description of the failure.
        canonical_reason: String,
        /// The HTTP status code, in decimal.
        status: Option<String>,
        /// The whole JSON payload that the server returned.
        body: Option<Json>,
    },
}

/// The mathematical view of an [`Error`].
pub struct ErrorView {
    pub canonical_reason: Seq<char>,
    pub status: Option<Seq<char>>,
    pub body: Option<JsonView>,
}

pub open spec fn opt_text(s: Option<String>) -> Option<Seq<char>> {
    match s {
        Some(t) => Some(t@),
        None => None,
    }
}

pub open spec fn opt_json(j: Option<Json>) -> Option<JsonView> {
    match j {
        Some(v) => Some(v@),
        None => None,
    }
}

impl View for Error {
    type V = ErrorView;

    open spec fn view(&self) -> ErrorView {
        match self {
            Error::Response { canonical_reason, status, body } => ErrorView {
                canonical_reason: canonical_reason@,
                status: opt_text(*status),
                body: opt_json(*body),
            },
        }
    }
}

impl Error {
    /// A failure with a description only: the request never produced a
    /// response that could be read, or its payload could not be decoded.
    pub fn transport(reason: String) -> (r: Error)
        ensures
            r@ == (ErrorView { canonical_reason: reason@, status: None, body: None }),
    {
        Error::Response { canonical_reason: reason, status: None, body: None }
    }

}

} // verus!
