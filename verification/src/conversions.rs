//! Errors of other libraries turned into the runtime's errors: their text is
//! taken from them, and what is built around it is verified.
use vstd::prelude::*;

use serde_json::Error as JsonError;
use crate::rari_error::{ErrorMetadata, MetadataView, RariError};

verus! {

/// `std::io::Error`.
#[verifier::external_type_specification]
#[verifier::external_body]
pub struct ExIoError(std::io::Error);

/// `serde_json::Error`.
#[verifier::external_type_specification]
#[verifier::external_body]
pub struct ExJsonError(JsonError);

/// `tokio::time::error::Elapsed`.
#[verifier::external_type_specification]
#[verifier::external_body]
pub struct ExElapsed(tokio::time::error::Elapsed);

/// Calls `to_string` on a `std::io::Error` (its `Display`). Nothing is
/// claimed of the text: for an operating-system error it comes from the
/// machine's error tables.
#[verifier::external_body]
pub(crate) fn io_error_text(error: &std::io::Error) -> (text: String) {
    error.to_string()
}

/// Calls `to_string` on a `serde_json::Error` (its `Display`). Nothing is
/// claimed of the text: it renders the error's category and position, which
/// the opaque error value does not show to verified code.
#[verifier::external_body]
pub(crate) fn json_error_text(error: &JsonError) -> (text: String) {
    error.to_string()
}

/// Calls `to_string` on a `tokio::time::error::Elapsed`. The contract claims
/// the text is "deadline has elapsed", which its `Display` writes.
#[verifier::external_body]
pub(crate) fn elapsed_text(error: &tokio::time::error::Elapsed) -> (text: String)
    ensures
        text@ == "deadline has elapsed"@,
{
    error.to_string()
}

impl RariError {
    /// The I/O error with message `message`, with metadata that names
    /// `std::io::Error` as its source.
    pub fn from_io_error_text(message: String) -> (r: Self)
        ensures
            r == RariError::IoError(message, r.meta()),
            r.meta_text() == Some(
                MetadataView {
                    code: "IO_ERROR"@,
                    details: None,
                    source: Some("std::io::Error"@),
                },
            ),
    {
        RariError::IoError(
            message,
            Some(
                ErrorMetadata {
                    code: String::from_str("IO_ERROR"),
                    details: None,
                    source: Some(String::from_str("std::io::Error")),
                },
            ),
        )
    }

    /// The serialization error with message `message`, with metadata that
    /// carries the code `JSON_ERROR` and names `serde_json` as its source.
    pub fn from_json_error_text(message: String) -> (r: Self)
        ensures
            r == RariError::Serialization(message, r.meta()),
            r.meta_text() == Some(
                MetadataView {
                    code: "JSON_ERROR"@,
                    details: None,
                    source: Some("serde_json"@),
                },
            ),
    {
        RariError::Serialization(
            message,
            Some(
                ErrorMetadata {
                    code: String::from_str("JSON_ERROR"),
                    details: None,
                    source: Some(String::from_str("serde_json")),
                },
            ),
        )
    }
}

impl From<std::io::Error> for RariError {
    /// An I/O error, with the error's text as message.
    fn from(error: std::io::Error) -> (r: Self)
        ensures
            r is IoError,
            r.meta_text() == Some(
                MetadataView {
                    code: "IO_ERROR"@,
                    details: None,
                    source: Some("std::io::Error"@),
                },
            ),
    {
        RariError::from_io_error_text(io_error_text(&error))
    }
}

/// The message of the result comes from the error's `Display`, which no spec
/// function here can name; the `ensures` of `from` says the rest.
impl vstd::std_specs::convert::FromSpecImpl<std::io::Error> for RariError {
    open spec fn obeys_from_spec() -> bool {
        false
    }

    open spec fn from_spec(error: std::io::Error) -> RariError {
        RariError::IoError(arbitrary(), None)
    }
}

impl From<JsonError> for RariError {
    /// A serialization error, with the error's text as message.
    fn from(error: JsonError) -> (r: Self)
        ensures
            r is Serialization,
            r.meta_text() == Some(
                MetadataView {
                    code: "JSON_ERROR"@,
                    details: None,
                    source: Some("serde_json"@),
                },
            ),
    {
        RariError::from_json_error_text(json_error_text(&error))
    }
}

/// The message of the result comes from the error's `Display`, which no spec
/// function here can name; the `ensures` of `from` says the rest.
impl vstd::std_specs::convert::FromSpecImpl<JsonError> for RariError {
    open spec fn obeys_from_spec() -> bool {
        false
    }

    open spec fn from_spec(error: JsonError) -> RariError {
        RariError::Serialization(arbitrary(), None)
    }
}

impl From<tokio::time::error::Elapsed> for RariError {
    /// A timeout error with message "deadline has elapsed" and no metadata.
    fn from(error: tokio::time::error::Elapsed) -> (r: Self)
        ensures
            r matches RariError::Timeout(m, None) && m@ == "deadline has elapsed"@,
    {
        RariError::Timeout(elapsed_text(&error), None)
    }
}

/// A spec function can name no `String` by its text alone; the `ensures` of
/// `from` says what the result is.
impl vstd::std_specs::convert::FromSpecImpl<tokio::time::error::Elapsed> for RariError {
    open spec fn obeys_from_spec() -> bool {
        false
    }

    open spec fn from_spec(error: tokio::time::error::Elapsed) -> RariError {
        RariError::Timeout(arbitrary(), None)
    }
}

} // verus!
