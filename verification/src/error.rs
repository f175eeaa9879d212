//! The error taxonomy, and the classification of HTTP status codes.

use crate::json::{
    get_field, json_get, json_str, string_concat, Json,
};
use vstd::prelude::*;

verus! {

/// Why an operation failed. Every failure is returned as a value; no
/// operation panics or retries.
#[derive(Debug, Clone, PartialEq, Eq)]
pub enum ApiError {
    /// The transport could not complete the exchange at all (DNS, TCP, TLS
    /// or I/O trouble). Raised by the caller that owns the transport.
    Transport(String),
    /// A collection endpoint answered with a non-success status; carries the
    /// status code and the server-supplied message.
    Status(u16, String),
    /// Status 401: the token is invalid or expired.
    Unauthorized,
    /// Status 403: the token lacks permission for the target resource.
    Forbidden,
    /// Status 404: the resource does not exist.
    NotFound,
    /// Status 406: the request's semantics were malformed.
    NotAcceptable,
    /// Status 409: a conflict, e.g. a duplicate record; carries the server's
    /// message with any "taken" detail appended.
    Conflict(String),
    /// Status 422: a validation failure; carries the server's message with
    /// any "taken" detail appended.
    Unprocessable(String),
    /// Any other non-success status; carries the status code and the
    /// server-supplied message.
    Unknown(u16, String),
    /// The response body did not have the expected shape.
    Deserialize(String),
    /// The expected envelope key was absent from the response body.
    MissingField(String),
}

/// The message the server put at `error.message` of the body, or
/// "Unknown error" when there is none.
pub open spec fn error_message_of(j: Json) -> Seq<char> {
    match json_get(j, "error"@) {
        Some(e) => match json_get(e, "message"@) {
            Some(m) => match json_str(m) {
                Some(s) => s,
                None => "Unknown error"@,
            },
            None => "Unknown error"@,
        },
        None => "Unknown error"@,
    }
}

/// The detail the server put at `error.details.taken` of the body, if any.
pub open spec fn taken_detail_of(j: Json) -> Option<Seq<char>> {
    match json_get(j, "error"@) {
        Some(e) => match json_get(e, "details"@) {
            Some(d) => match json_get(d, "taken"@) {
                Some(t) => json_str(t),
                None => None,
            },
            None => None,
        },
        None => None,
    }
}

/// The server's message with any "taken" detail appended.
pub open spec fn detailed_message_of(j: Json) -> Seq<char> {
    match taken_detail_of(j) {
        Some(t) => error_message_of(j) + ": taken: "@ + t,
        None => error_message_of(j),
    }
}

/// How a non-success status code and body are classified, uniformly across
/// the write and single-read operations: for a given status and body exactly
/// one error shape satisfies this.
pub open spec fn classifies(status: u16, body: Json, e: ApiError) -> bool {
    match e {
        ApiError::Unauthorized => status == 401,
        ApiError::Forbidden => status == 403,
        ApiError::NotFound => status == 404,
        ApiError::NotAcceptable => status == 406,
        ApiError::Conflict(m) => status == 409 && m@ == detailed_message_of(body),
        ApiError::Unprocessable(m) => status == 422 && m@ == detailed_message_of(body),
        ApiError::Unknown(c, m) => c == status && !(200 <= status < 300) && status != 401
            && status != 403 && status != 404 && status != 406 && status != 409 && status != 422
            && m@ == error_message_of(body),
        _ => false,
    }
}

/// Whether two errors are the same failure: the same kind, carrying the
/// same status code and the same message text.
pub open spec fn same_error_shape(e1: ApiError, e2: ApiError) -> bool {
    match (e1, e2) {
        (ApiError::Transport(m1), ApiError::Transport(m2)) => m1@ == m2@,
        (ApiError::Status(c1, m1), ApiError::Status(c2, m2)) => c1 == c2 && m1@ == m2@,
        (ApiError::Unauthorized, ApiError::Unauthorized) => true,
        (ApiError::Forbidden, ApiError::Forbidden) => true,
        (ApiError::NotFound, ApiError::NotFound) => true,
        (ApiError::NotAcceptable, ApiError::NotAcceptable) => true,
        (ApiError::Conflict(m1), ApiError::Conflict(m2)) => m1@ == m2@,
        (ApiError::Unprocessable(m1), ApiError::Unprocessable(m2)) => m1@ == m2@,
        (ApiError::Unknown(c1, m1), ApiError::Unknown(c2, m2)) => c1 == c2 && m1@ == m2@,
        (ApiError::Deserialize(m1), ApiError::Deserialize(m2)) => m1@ == m2@,
        (ApiError::MissingField(m1), ApiError::MissingField(m2)) => m1@ == m2@,
        _ => false,
    }
}

/// The status table maps each status code and body to one error: two errors
/// the classification admits for the same response are the same failure.
pub proof fn lemma_classification_unambiguous(status: u16, body: Json, e1: ApiError, e2: ApiError)
    requires
        classifies(status, body, e1),
        classifies(status, body, e2),
    ensures
        same_error_shape(e1, e2),
{
}

/// The message the server put at `error.message` of the body, or
/// "Unknown error" when there is none.
pub fn error_message(j: &Json) -> (r: String)
    ensures
        r@ == error_message_of(*j),
{
    match get_field(j, "error") {
        Some(e) => match get_field(e, "message") {
            Some(m) => match m {
                Json::Str(s) => s.clone(),
                _ => String::from_str("Unknown error"),
            },
            None => String::from_str("Unknown error"),
        },
        None => String::from_str("Unknown error"),
    }
}

/// The server's message with any "taken" detail appended.
pub fn detailed_message(j: &Json) -> (r: String)
    ensures
        r@ == detailed_message_of(*j),
{
    let base: String = error_message(j);
    match get_field(j, "error") {
        Some(e) => match get_field(e, "details") {
            Some(d) => match get_field(d, "taken") {
                Some(t) => match t {
                    Json::Str(s) => {
                        let withsep: String = string_concat(base.as_str(), ": taken: ");
                        string_concat(withsep.as_str(), s.as_str())
                    },
                    _ => base,
                },
                None => base,
            },
            None => base,
        },
        None => base,
    }
}

/// Classifies a non-success status code, per the uniform table: 401, 403,
/// 404 and 406 map to their own kinds; 409 and 422 carry the server's
/// message with any "taken" detail appended; everything else carries the
/// status code and the server's message.
pub fn classify_status(status: u16, body: &Json) -> (e: ApiError)
    requires
        !(200 <= status < 300),
    ensures
        classifies(status, *body, e),
        status == 401 ==> e == ApiError::Unauthorized,
        status == 404 ==> e == ApiError::NotFound,
{
    if status == 401 {
        ApiError::Unauthorized
    } else if status == 403 {
        ApiError::Forbidden
    } else if status == 404 {
        ApiError::NotFound
    } else if status == 406 {
        ApiError::NotAcceptable
    } else if status == 409 {
        ApiError::Conflict(detailed_message(body))
    } else if status == 422 {
        ApiError::Unprocessable(detailed_message(body))
    } else {
        ApiError::Unknown(status, error_message(body))
    }
}

} // verus!
