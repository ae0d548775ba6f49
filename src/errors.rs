//! The one error type that every operation of the library reports.
use crate::json::{is_decimal_of, u64_text};
use vstd::prelude::*;

verus! {

/// Everything that can go wrong on the way from a request to typed values.
#[derive(Debug)]
pub enum OapiError {
    /// The request could not be sent, or the exchange broke off.
    SendError(String),
    /// The response could not be read.
    ResponseError(String),
    /// The service answered with an unexpected code.
    ResponseCode(u16),
    /// The service answered with a status that is not a success; the body is
    /// not looked at.
    ResponseStatus(u16),
    /// The response body could not be framed as server-sent events.
    SseParseError(String),
    /// The stream of events failed.
    StreamError(String),
    /// A streaming request was posted on the single-response path.
    NonStreamingViolation,
    /// A single-response request was posted on the streaming path.
    StreamingViolation,
    /// A payload is not JSON, or not of the expected shape; the text says why.
    DeserializationError(String),
    /// A field of the request holds a value it cannot be sent with; the text
    /// names the field.
    InvalidRequest(String),
    /// The file to upload is not there; the text is its path.
    FileNotFoundError(String),
    /// The file to upload could not be read; the text says why.
    FileReadError(String),
    NotImplemented,
}

/// The text of an error: its kind, then what it carries.
pub open spec fn message_fits(e: OapiError, m: Seq<char>) -> bool {
    match e {
        OapiError::SendError(s) => m == "Failed to send request: "@ + s@,
        OapiError::ResponseError(s) => m == "Response error: "@ + s@,
        OapiError::ResponseCode(c) => m.len() >= "Invalid response code: "@.len() && m.subrange(
            0,
            "Invalid response code: "@.len() as int,
        ) == "Invalid response code: "@ && is_decimal_of(
            m.subrange("Invalid response code: "@.len() as int, m.len() as int),
            c as int,
        ),
        OapiError::ResponseStatus(c) => m.len() >= "Invalid response status: "@.len() && m.subrange(
            0,
            "Invalid response status: "@.len() as int,
        ) == "Invalid response status: "@ && is_decimal_of(
            m.subrange("Invalid response status: "@.len() as int, m.len() as int),
            c as int,
        ),
        OapiError::SseParseError(s) => m == "Failed to parse to String: "@ + s@,
        OapiError::StreamError(s) => m == s@,
        OapiError::NonStreamingViolation => m == "You cannot post a streaming request in a non-streaming context"@,
        OapiError::StreamingViolation => m == "You cannot post a non-streaming request in a streaming context"@,
        OapiError::DeserializationError(s) => m == "Deserialization error: "@ + s@,
        OapiError::InvalidRequest(s) => m == "Invalid request field: "@ + s@,
        OapiError::FileNotFoundError(s) => m == "File not found at: "@ + s@,
        OapiError::FileReadError(s) => m == "Failed to read file: "@ + s@,
        OapiError::NotImplemented => m == "Not implemented"@,
    }
}

/// `prefix` followed by `tail`.
fn joined(prefix: &str, tail: &str) -> (r: String)
    ensures
        r@ == prefix@ + tail@,
{
    String::from_str(prefix).concat(tail)
}

/// The diagnostic of a payload that is JSON of the wrong shape: the member
/// that is missing or holds a value of another shape.
pub open spec fn schema_message(member: Seq<char>) -> Seq<char> {
    "missing or invalid member: "@ + member
}

/// The error for a payload whose member `member` is missing or invalid.
pub fn schema_error(member: &str) -> (r: OapiError)
    ensures
        r matches OapiError::DeserializationError(m) && m@ == schema_message(member@),
{
    OapiError::DeserializationError(joined("missing or invalid member: ", member))
}

impl OapiError {
    /// A human-readable text of the error.
    pub fn message(&self) -> (r: String)
        ensures
            message_fits(*self, r@),
    {
        match self {
            OapiError::SendError(s) => joined("Failed to send request: ", s.as_str()),
            OapiError::ResponseError(s) => joined("Response error: ", s.as_str()),
            OapiError::ResponseCode(c) => {
                let digits = u64_text(*c as u64);
                let r = joined("Invalid response code: ", digits.as_str());
                assert(r@.subrange(0, "Invalid response code: "@.len() as int) =~= "Invalid response code: "@);
                assert(r@.subrange("Invalid response code: "@.len() as int, r@.len() as int) =~= digits@);
                r
            },
            OapiError::ResponseStatus(c) => {
                let digits = u64_text(*c as u64);
                let r = joined("Invalid response status: ", digits.as_str());
                assert(r@.subrange(0, "Invalid response status: "@.len() as int) =~= "Invalid response status: "@);
                assert(r@.subrange("Invalid response status: "@.len() as int, r@.len() as int) =~= digits@);
                r
            },
            OapiError::SseParseError(s) => joined("Failed to parse to String: ", s.as_str()),
            OapiError::StreamError(s) => s.clone(),
            OapiError::NonStreamingViolation => String::from_str(
                "You cannot post a streaming request in a non-streaming context",
            ),
            OapiError::StreamingViolation => String::from_str(
                "You cannot post a non-streaming request in a streaming context",
            ),
            OapiError::DeserializationError(s) => joined("Deserialization error: ", s.as_str()),
            OapiError::InvalidRequest(s) => joined("Invalid request field: ", s.as_str()),
            OapiError::FileNotFoundError(s) => joined("File not found at: ", s.as_str()),
            OapiError::FileReadError(s) => joined("Failed to read file: ", s.as_str()),
            OapiError::NotImplemented => String::from_str("Not implemented"),
        }
    }
}

} // verus!
