//! The error answer of the JSON handlers: an HTTP status and a message,
//! rendered as `{"error": message}`.

use vstd::prelude::*;
use vstd::string::StringExecFns;
use crate::json::{json_encode_str, json_string};

verus! {

/// HTTP 400.
pub const BAD_REQUEST: u16 = 400;
/// HTTP 401.
pub const UNAUTHORIZED: u16 = 401;
/// HTTP 404.
pub const NOT_FOUND: u16 = 404;
/// HTTP 500.
pub const INTERNAL_SERVER_ERROR: u16 = 500;

/// An error answer: the status code and the message sent in the body.
pub struct AppError {
    pub status: u16,
    pub response: String,
}

/// The body of an error answer: a JSON object with the one key `error`.
pub open spec fn error_body(message: Seq<char>) -> Seq<char> {
    "{\"error\":"@ + json_encode_str(message) + "}"@
}

impl AppError {
    /// An error answer with the given status and message.
    pub fn new(status: u16, response: &str) -> (r: AppError)
        ensures
            r.status == status,
            r.response@ == response@,
    {
        AppError { status, response: response.to_owned() }
    }

    /// The JSON body sent with this error.
    pub fn body(&self) -> (r: String)
        ensures
            r@ == error_body(self.response@),
    {
        let mut out = "{\"error\":".to_owned();
        let encoded = json_string(self.response.as_str());
        out.append(encoded.as_str());
        out.append("}");
        out
    }
}

impl From<String> for AppError {
    /// Any message becomes an internal server error carrying it.
    fn from(original_error: String) -> (r: AppError) {
        AppError { status: INTERNAL_SERVER_ERROR, response: original_error }
    }
}

impl vstd::std_specs::convert::FromSpecImpl<String> for AppError {
    open spec fn obeys_from_spec() -> bool {
        true
    }

    open spec fn from_spec(v: String) -> AppError {
        AppError { status: INTERNAL_SERVER_ERROR, response: v }
    }
}

impl From<&str> for AppError {
    /// Any message becomes an internal server error carrying it.
    fn from(original_error: &str) -> (r: AppError)
        ensures
            r.status == INTERNAL_SERVER_ERROR,
            r.response@ == original_error@,
    {
        AppError { status: INTERNAL_SERVER_ERROR, response: original_error.to_owned() }
    }
}

/// The message of a converted `&str` is a new `String` with the same text; a
/// spec function cannot name that `String`, so the exact result is stated on
/// `from` itself rather than through `from_spec`.
impl vstd::std_specs::convert::FromSpecImpl<&str> for AppError {
    open spec fn obeys_from_spec() -> bool {
        false
    }

    open spec fn from_spec(v: &str) -> AppError {
        AppError { status: INTERNAL_SERVER_ERROR, response: choose|s: String| s@ == v@ }
    }
}

} // verus!
