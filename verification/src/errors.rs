//! The unified error type of the library, and its rendering to a message.

use crate::text::{dec_seq, u16_to_string};
use vstd::prelude::*;

verus! {

/// Every failure the library reports.
///
/// `IoFailure`, `NetworkFailure` and `EncodingFailure` carry the underlying
/// message text; `ApiErrorResponse` carries the numeric status and the raw
/// response body; `AccountNotFound` carries the account name that was asked
/// for.
#[derive(Debug)]
pub enum ApiError {
    LockfileNotFound,
    MalformedLockfile,
    IoFailure(String),
    NetworkFailure(String),
    ApiErrorResponse { status: u16, text: String },
    HeaderConstructionFailure,
    EncodingFailure(String),
    AccountNotFound(String),
}

impl ApiError {
    /// The descriptive message for this error.
    pub open spec fn spec_message(self) -> Seq<char> {
        match self {
            ApiError::LockfileNotFound => "Can not find lockfile"@,
            ApiError::MalformedLockfile => "Lockfile is malformed"@,
            ApiError::IoFailure(s) => "I/O error: "@ + s@,
            ApiError::NetworkFailure(s) => "HTTP request error: "@ + s@,
            ApiError::ApiErrorResponse { status, text } => "API returned an error: "@ + dec_seq(
                status as nat,
            ) + " - "@ + text@,
            ApiError::HeaderConstructionFailure => "Failed to build HTTP header"@,
            ApiError::EncodingFailure(s) => "Encoding error: "@ + s@,
            ApiError::AccountNotFound(name) => "'"@ + name@ + "' data not found"@,
        }
    }

    /// Renders the error as a descriptive message.
    pub fn to_message(&self) -> (r: String)
        ensures
            r@ == self.spec_message(),
    {
        match self {
            ApiError::LockfileNotFound => String::from_str("Can not find lockfile"),
            ApiError::MalformedLockfile => String::from_str("Lockfile is malformed"),
            ApiError::IoFailure(s) => String::from_str("I/O error: ").concat(s.as_str()),
            ApiError::NetworkFailure(s) => String::from_str("HTTP request error: ").concat(
                s.as_str(),
            ),
            ApiError::ApiErrorResponse { status, text } => {
                let r = String::from_str("API returned an error: ").concat(
                    u16_to_string(*status).as_str(),
                ).concat(" - ").concat(text.as_str());
                r
            },
            ApiError::HeaderConstructionFailure => String::from_str("Failed to build HTTP header"),
            ApiError::EncodingFailure(s) => String::from_str("Encoding error: ").concat(s.as_str()),
            ApiError::AccountNotFound(name) => String::from_str("'").concat(name.as_str()).concat(
                "' data not found",
            ),
        }
    }
}

/// Renders a library error as the plain string handed to the caller's
/// presentation layer.
pub fn to_string_error(e: &ApiError) -> (r: String)
    ensures
        r@ == e.spec_message(),
{
    e.to_message()
}

} // verus!
