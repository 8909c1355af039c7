//! Errors of the JavaScript engine host: entrypoints, exported values,
//! encoding, workers and the engine's own failures.
use vstd::prelude::*;

use serde_json::Error as JsonError;

verus! {

/// What went wrong while the engine ran a module or called into it.
#[derive(Debug, Clone)]
pub enum Error {
    MissingEntrypoint(String),
    ValueNotFound(String),
    ValueNotCallable(String),
    V8Encoding(String),
    JsonDecode(String),
    ModuleNotFound(String),
    WorkerHasStopped,
    Runtime(String),
    /// An exception thrown by JavaScript code, held as the engine renders it.
    JsError(String),
    Timeout(String),
    HeapExhausted,
}

impl Error {
    /// The human-readable report of the error.
    pub open spec fn display_text(self) -> Seq<char> {
        match self {
            Error::MissingEntrypoint(s) => s@
                + " has no entrypoint. Register one, or add a default to the runtime"@,
            Error::ValueNotFound(s) => s@ + " could not be found in global, or module exports"@,
            Error::ValueNotCallable(s) => s@ + " is not a function"@,
            Error::V8Encoding(s) => s@ + " could not be encoded as a v8 value"@,
            Error::JsonDecode(s) => "value could not be deserialized: "@ + s@,
            Error::ModuleNotFound(s) => s@,
            Error::WorkerHasStopped => "This worker has been destroyed"@,
            Error::Runtime(s) => s@,
            Error::JsError(s) => s@,
            Error::Timeout(s) => "Module timed out: "@ + s@,
            Error::HeapExhausted => "Heap exhausted"@,
        }
    }

    /// The human-readable report of the error.
    pub fn to_string(&self) -> (r: String)
        ensures
            r@ == self.display_text(),
    {
        match self {
            Error::MissingEntrypoint(s) => s.clone().concat(
                " has no entrypoint. Register one, or add a default to the runtime",
            ),
            Error::ValueNotFound(s) => s.clone().concat(
                " could not be found in global, or module exports",
            ),
            Error::ValueNotCallable(s) => s.clone().concat(" is not a function"),
            Error::V8Encoding(s) => s.clone().concat(" could not be encoded as a v8 value"),
            Error::JsonDecode(s) => String::from_str("value could not be deserialized: ").concat(
                s.as_str(),
            ),
            Error::ModuleNotFound(s) => s.clone(),
            Error::WorkerHasStopped => String::from_str("This worker has been destroyed"),
            Error::Runtime(s) => s.clone(),
            Error::JsError(s) => s.clone(),
            Error::Timeout(s) => String::from_str("Module timed out: ").concat(s.as_str()),
            Error::HeapExhausted => String::from_str("Heap exhausted"),
        }
    }
}

impl From<String> for Error {
    /// A plain message becomes a runtime error.
    fn from(e: String) -> (r: Self) {
        Error::Runtime(e)
    }
}

impl vstd::std_specs::convert::FromSpecImpl<String> for Error {
    open spec fn obeys_from_spec() -> bool {
        true
    }

    open spec fn from_spec(e: String) -> Error {
        Error::Runtime(e)
    }
}

impl From<&str> for Error {
    /// A plain message becomes a runtime error.
    fn from(e: &str) -> (r: Self)
        ensures
            r matches Error::Runtime(m) && m@ == e@,
    {
        Error::Runtime(String::from_str(e))
    }
}

/// A spec function can name no `String` by its text alone, so the conversion
/// from `&str` is described by the `ensures` of its `from`, not here.
impl vstd::std_specs::convert::FromSpecImpl<&str> for Error {
    open spec fn obeys_from_spec() -> bool {
        false
    }

    open spec fn from_spec(e: &str) -> Error {
        Error::Runtime(arbitrary())
    }
}

/// `std::cell::BorrowMutError`.
#[verifier::external_type_specification]
#[verifier::external_body]
pub struct ExBorrowMutError(std::cell::BorrowMutError);

/// The text that a `std::cell::BorrowMutError` displays.
pub uninterp spec fn borrow_mut_error_text(e: std::cell::BorrowMutError) -> Seq<char>;

/// Calls `to_string` on a `std::cell::BorrowMutError` (its `Display`). The
/// contract claims only that the text depends on the error alone (it reads no
/// machine state), named `borrow_mut_error_text`; std's documentation does
/// not give the text itself.
#[verifier::external_body]
fn borrow_error_text(e: &std::cell::BorrowMutError) -> (text: String)
    ensures
        text@ == borrow_mut_error_text(*e),
{
    e.to_string()
}

impl From<std::cell::BorrowMutError> for Error {
    /// A failed mutable borrow becomes a runtime error with the borrow error's text.
    fn from(e: std::cell::BorrowMutError) -> (r: Self)
        ensures
            r matches Error::Runtime(m) && m@ == borrow_mut_error_text(e),
    {
        Error::Runtime(borrow_error_text(&e))
    }
}

/// A spec function can name no `String` by its text alone; the `ensures` of
/// `from` says what the result is.
impl vstd::std_specs::convert::FromSpecImpl<std::cell::BorrowMutError> for Error {
    open spec fn obeys_from_spec() -> bool {
        false
    }

    open spec fn from_spec(e: std::cell::BorrowMutError) -> Error {
        Error::Runtime(arbitrary())
    }
}

impl From<JsonError> for Error {
    /// A JSON error becomes a decoding error with the JSON error's text.
    fn from(e: JsonError) -> (r: Self)
        ensures
            r is JsonDecode,
    {
        Error::JsonDecode(crate::conversions::json_error_text(&e))
    }
}

/// The message of the result comes from the JSON error's `Display`, which no
/// spec function here can name; the `ensures` of `from` says the rest.
impl vstd::std_specs::convert::FromSpecImpl<JsonError> for Error {
    open spec fn obeys_from_spec() -> bool {
        false
    }

    open spec fn from_spec(e: JsonError) -> Error {
        Error::JsonDecode(arbitrary())
    }
}

} // verus!
