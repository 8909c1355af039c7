//! The runtime's error: a kind, a message, and optional metadata holding the
//! error's code, a table of properties and the text of its source.
use vstd::prelude::*;

use crate::module_reload::{opt_text, ModuleReloadError};
use crate::properties::{
    copy_properties, insert_property, lookup_property, new_properties, no_properties, property_entries,
    remove_property_entry, PropertyTable,
};

verus! {

/// Metadata attached to an error.
#[derive(Debug, PartialEq)]
pub struct ErrorMetadata {
    pub code: String,
    pub details: Option<PropertyTable>,
    pub source: Option<String>,
}

/// The metadata of an error, as text.
pub struct MetadataView {
    pub code: Seq<char>,
    pub details: Option<Map<Seq<char>, Seq<char>>>,
    pub source: Option<Seq<char>>,
}

impl ErrorMetadata {
    /// The metadata as text.
    pub open spec fn text(self) -> MetadataView {
        MetadataView {
            code: self.code@,
            details: match self.details {
                Some(d) => Some(property_entries(d)),
                None => None,
            },
            source: opt_text(self.source),
        }
    }
}

impl Clone for ErrorMetadata {
    /// A copy with the same code, table and source.
    fn clone(&self) -> (r: Self)
        ensures
            r.text() == self.text(),
    {
        let details = match &self.details {
            Some(d) => Some(copy_properties(d)),
            None => None,
        };
        let source = match &self.source {
            Some(s) => Some(s.clone()),
            None => None,
        };
        ErrorMetadata { code: self.code.clone(), details, source }
    }
}

/// An error of the runtime, by kind.
#[derive(Debug, Clone, PartialEq)]
pub enum RariError {
    NotFound(String, Option<ErrorMetadata>),
    Validation(String, Option<ErrorMetadata>),
    Internal(String, Option<ErrorMetadata>),
    BadRequest(String, Option<ErrorMetadata>),
    Serialization(String, Option<ErrorMetadata>),
    Deserialization(String, Option<ErrorMetadata>),
    State(String, Option<ErrorMetadata>),
    Network(String, Option<ErrorMetadata>),
    Timeout(String, Option<ErrorMetadata>),
    ServerError(String, Option<ErrorMetadata>),
    JsExecution(String, Option<ErrorMetadata>),
    JsRuntime(String, Option<ErrorMetadata>),
    IoError(String, Option<ErrorMetadata>),
    ModuleReload(ModuleReloadError, Option<ErrorMetadata>),
}

impl RariError {
    /// The metadata the error carries.
    pub open spec fn meta(self) -> Option<ErrorMetadata> {
        match self {
            RariError::NotFound(_, m) => m,
            RariError::Validation(_, m) => m,
            RariError::Internal(_, m) => m,
            RariError::BadRequest(_, m) => m,
            RariError::Serialization(_, m) => m,
            RariError::Deserialization(_, m) => m,
            RariError::State(_, m) => m,
            RariError::Network(_, m) => m,
            RariError::Timeout(_, m) => m,
            RariError::ServerError(_, m) => m,
            RariError::JsExecution(_, m) => m,
            RariError::JsRuntime(_, m) => m,
            RariError::IoError(_, m) => m,
            RariError::ModuleReload(_, m) => m,
        }
    }

    /// The same error with its metadata replaced by `m`.
    pub open spec fn with_meta(self, m: Option<ErrorMetadata>) -> RariError {
        match self {
            RariError::NotFound(s, _) => RariError::NotFound(s, m),
            RariError::Validation(s, _) => RariError::Validation(s, m),
            RariError::Internal(s, _) => RariError::Internal(s, m),
            RariError::BadRequest(s, _) => RariError::BadRequest(s, m),
            RariError::Serialization(s, _) => RariError::Serialization(s, m),
            RariError::Deserialization(s, _) => RariError::Deserialization(s, m),
            RariError::State(s, _) => RariError::State(s, m),
            RariError::Network(s, _) => RariError::Network(s, m),
            RariError::Timeout(s, _) => RariError::Timeout(s, m),
            RariError::ServerError(s, _) => RariError::ServerError(s, m),
            RariError::JsExecution(s, _) => RariError::JsExecution(s, m),
            RariError::JsRuntime(s, _) => RariError::JsRuntime(s, m),
            RariError::IoError(s, _) => RariError::IoError(s, m),
            RariError::ModuleReload(e, _) => RariError::ModuleReload(e, m),
        }
    }

    /// The metadata the error carries, as text.
    pub open spec fn meta_text(self) -> Option<MetadataView> {
        match self.meta() {
            Some(m) => Some(m.text()),
            None => None,
        }
    }

    /// The stable code of the error kind.
    pub open spec fn code_text(self) -> Seq<char> {
        match self {
            RariError::NotFound(..) => "NOT_FOUND"@,
            RariError::Validation(..) => "VALIDATION"@,
            RariError::Internal(..) => "INTERNAL"@,
            RariError::BadRequest(..) => "BAD_REQUEST"@,
            RariError::Serialization(..) => "SERIALIZATION_ERROR"@,
            RariError::Deserialization(..) => "DESERIALIZATION_ERROR"@,
            RariError::State(..) => "STATE_ERROR"@,
            RariError::Network(..) => "NETWORK"@,
            RariError::Timeout(..) => "TIMEOUT_ERROR"@,
            RariError::ServerError(..) => "SERVER_ERROR"@,
            RariError::JsExecution(..) => "JS_EXECUTION_ERROR"@,
            RariError::JsRuntime(..) => "JS_RUNTIME_ERROR"@,
            RariError::IoError(..) => "IO_ERROR"@,
            RariError::ModuleReload(e, _) => e.code_text(),
        }
    }

    /// The message of the error.
    pub open spec fn message_text(self) -> Seq<char> {
        match self {
            RariError::NotFound(s, _) => s@,
            RariError::Validation(s, _) => s@,
            RariError::Internal(s, _) => s@,
            RariError::BadRequest(s, _) => s@,
            RariError::Serialization(s, _) => s@,
            RariError::Deserialization(s, _) => s@,
            RariError::State(s, _) => s@,
            RariError::Network(s, _) => s@,
            RariError::Timeout(s, _) => s@,
            RariError::ServerError(s, _) => s@,
            RariError::JsExecution(s, _) => s@,
            RariError::JsRuntime(s, _) => s@,
            RariError::IoError(s, _) => s@,
            RariError::ModuleReload(e, _) => e.message_text(),
        }
    }

    /// The value stored under `key` in the error's properties, if any.
    pub open spec fn property(self, key: Seq<char>) -> Option<Seq<char>> {
        match self.meta_text() {
            Some(m) => match m.details {
                Some(d) => if d.contains_key(key) {
                    Some(d[key])
                } else {
                    None
                },
                None => None,
            },
            None => None,
        }
    }

    /// The metadata after `key` is set to `value`: fresh metadata carrying the
    /// error's code when there was none, and an empty table when there was no
    /// table, before the entry is written.
    pub open spec fn meta_after_set(self, key: Seq<char>, value: Seq<char>) -> MetadataView {
        match self.meta_text() {
            None => MetadataView {
                code: self.code_text(),
                details: Some(no_properties().insert(key, value)),
                source: None,
            },
            Some(m) => MetadataView {
                code: m.code,
                details: Some(
                    match m.details {
                        Some(d) => d,
                        None => no_properties(),
                    }.insert(key, value),
                ),
                source: m.source,
            },
        }
    }

    /// The metadata after the source text is recorded: fresh metadata carrying
    /// the error's code and an empty table when there was none.
    pub open spec fn meta_after_source(self, source: Seq<char>) -> MetadataView {
        match self.meta_text() {
            None => MetadataView {
                code: self.code_text(),
                details: Some(no_properties()),
                source: Some(source),
            },
            Some(m) => MetadataView { code: m.code, details: m.details, source: Some(source) },
        }
    }

    /// `after` is `before` with `key` set to `value` in its properties; the
    /// kind and the message stay.
    pub open spec fn property_set(before: RariError, after: RariError, key: Seq<char>, value: Seq<char>) -> bool {
        &&& after == before.with_meta(after.meta())
        &&& after.meta_text() == Some(before.meta_after_set(key, value))
    }

    /// `after` is `before` with `source` recorded as the text of its source;
    /// the kind and the message stay.
    pub open spec fn source_recorded(before: RariError, after: RariError, source: Seq<char>) -> bool {
        &&& after == before.with_meta(after.meta())
        &&& after.meta_text() == Some(before.meta_after_source(source))
    }

    /// `after` is `before` with the entry under `key` gone from its properties.
    pub open spec fn property_removed(before: RariError, after: RariError, key: Seq<char>) -> bool {
        match before.meta_text() {
            Some(m) => match m.details {
                Some(d) => {
                    &&& after == before.with_meta(after.meta())
                    &&& after.meta_text() == Some(
                        MetadataView { code: m.code, details: Some(d.remove(key)), source: m.source },
                    )
                },
                None => after == before,
            },
            None => after == before,
        }
    }

    /// The message of the error.
    pub fn message(&self) -> (r: String)
        ensures
            r@ == self.message_text(),
    {
        match self {
            RariError::NotFound(msg, _) => msg.clone(),
            RariError::Validation(msg, _) => msg.clone(),
            RariError::Internal(msg, _) => msg.clone(),
            RariError::BadRequest(msg, _) => msg.clone(),
            RariError::Serialization(msg, _) => msg.clone(),
            RariError::Deserialization(msg, _) => msg.clone(),
            RariError::State(msg, _) => msg.clone(),
            RariError::Network(msg, _) => msg.clone(),
            RariError::Timeout(msg, _) => msg.clone(),
            RariError::ServerError(msg, _) => msg.clone(),
            RariError::JsExecution(msg, _) => msg.clone(),
            RariError::JsRuntime(msg, _) => msg.clone(),
            RariError::IoError(msg, _) => msg.clone(),
            RariError::ModuleReload(err, _) => String::from_str(err.message()),
        }
    }

    /// The stable code of the error kind.
    pub fn code(&self) -> (r: &'static str)
        ensures
            r@ == self.code_text(),
    {
        match self {
            RariError::NotFound(_, _) => "NOT_FOUND",
            RariError::Validation(_, _) => "VALIDATION",
            RariError::Internal(_, _) => "INTERNAL",
            RariError::BadRequest(_, _) => "BAD_REQUEST",
            RariError::Serialization(_, _) => "SERIALIZATION_ERROR",
            RariError::Deserialization(_, _) => "DESERIALIZATION_ERROR",
            RariError::State(_, _) => "STATE_ERROR",
            RariError::Network(_, _) => "NETWORK",
            RariError::Timeout(_, _) => "TIMEOUT_ERROR",
            RariError::ServerError(_, _) => "SERVER_ERROR",
            RariError::JsExecution(_, _) => "JS_EXECUTION_ERROR",
            RariError::JsRuntime(_, _) => "JS_RUNTIME_ERROR",
            RariError::IoError(_, _) => "IO_ERROR",
            RariError::ModuleReload(err, _) => err.code(),
        }
    }

    /// The metadata the error carries.
    pub fn metadata(&self) -> (r: Option<&ErrorMetadata>)
        ensures
            match r {
                Some(m) => self.meta() == Some(*m),
                None => self.meta() is None,
            },
    {
        match self {
            RariError::NotFound(_, meta) => meta.as_ref(),
            RariError::Validation(_, meta) => meta.as_ref(),
            RariError::Internal(_, meta) => meta.as_ref(),
            RariError::BadRequest(_, meta) => meta.as_ref(),
            RariError::Serialization(_, meta) => meta.as_ref(),
            RariError::Deserialization(_, meta) => meta.as_ref(),
            RariError::State(_, meta) => meta.as_ref(),
            RariError::Network(_, meta) => meta.as_ref(),
            RariError::Timeout(_, meta) => meta.as_ref(),
            RariError::ServerError(_, meta) => meta.as_ref(),
            RariError::JsExecution(_, meta) => meta.as_ref(),
            RariError::JsRuntime(_, meta) => meta.as_ref(),
            RariError::IoError(_, meta) => meta.as_ref(),
            RariError::ModuleReload(_, meta) => meta.as_ref(),
        }
    }

    /// The place in the error where its metadata is kept.
    fn metadata_mut(&mut self) -> (r: &mut Option<ErrorMetadata>)
        ensures
            *r == old(self).meta(),
            *final(self) == old(self).with_meta(*final(r)),
    {
        match self {
            RariError::NotFound(_, meta) => meta,
            RariError::Validation(_, meta) => meta,
            RariError::Internal(_, meta) => meta,
            RariError::BadRequest(_, meta) => meta,
            RariError::Serialization(_, meta) => meta,
            RariError::Deserialization(_, meta) => meta,
            RariError::State(_, meta) => meta,
            RariError::Network(_, meta) => meta,
            RariError::Timeout(_, meta) => meta,
            RariError::ServerError(_, meta) => meta,
            RariError::JsExecution(_, meta) => meta,
            RariError::JsRuntime(_, meta) => meta,
            RariError::IoError(_, meta) => meta,
            RariError::ModuleReload(_, meta) => meta,
        }
    }
}


impl RariError {
    /// Sets `key` to `value` in the error's properties, creating the metadata
    /// (with the error's code) and the table where they are missing.
    pub fn set_property(&mut self, key: &str, value: &str)
        ensures
            RariError::property_set(*old(self), *final(self), key@, value@),
    {
        let code = String::from_str(self.code());
        let metadata = self.metadata_mut();
        let mut meta = match metadata.take() {
            Some(m) => m,
            None => ErrorMetadata { code, details: Some(new_properties()), source: None },
        };
        let mut details = match meta.details.take() {
            Some(d) => d,
            None => new_properties(),
        };
        insert_property(&mut details, String::from_str(key), String::from_str(value));
        meta.details = Some(details);
        *metadata = Some(meta);
    }

    /// The error with `key` set to `value` in its properties.
    pub fn with_property(self, key: &str, value: &str) -> (r: Self)
        ensures
            RariError::property_set(self, r, key@, value@),
    {
        let mut e = self;
        e.set_property(key, value);
        e
    }

    /// The value stored under `key` in the error's properties.
    pub fn get_property(&self, key: &str) -> (r: Option<&str>)
        ensures
            crate::module_reload::opt_str_text(r) == self.property(key@),
    {
        match self.metadata() {
            Some(meta) => match &meta.details {
                Some(details) => match lookup_property(details, key) {
                    Some(v) => Some(v.as_str()),
                    None => None,
                },
                None => None,
            },
            None => None,
        }
    }

    /// Removes the entry under `key` from the error's properties, if there is a table.
    pub fn remove_property(&mut self, key: &str)
        ensures
            RariError::property_removed(*old(self), *final(self), key@),
    {
        let metadata = self.metadata_mut();
        match metadata {
            Some(meta) => match &mut meta.details {
                Some(details) => remove_property_entry(details, key),
                None => {},
            },
            None => {},
        }
    }

    /// The error with the text of its source recorded in its metadata,
    /// creating the metadata (with the error's code and an empty table) where
    /// it is missing.
    pub fn with_source(self, source: String) -> (r: Self)
        ensures
            RariError::source_recorded(self, r, source@),
    {
        let mut e = self;
        let code = String::from_str(e.code());
        let metadata = e.metadata_mut();
        let mut meta = match metadata.take() {
            Some(m) => m,
            None => ErrorMetadata { code, details: Some(new_properties()), source: None },
        };
        meta.source = Some(source);
        *metadata = Some(meta);
        e
    }
}


impl RariError {
    /// A resource that was asked for does not exist.
    pub fn not_found(message: String) -> (r: Self)
        ensures
            r == RariError::NotFound(message, None),
    {
        RariError::NotFound(message, None)
    }

    /// Input failed validation.
    pub fn validation(message: String) -> (r: Self)
        ensures
            r == RariError::Validation(message, None),
    {
        RariError::Validation(message, None)
    }

    /// Something failed inside the runtime.
    pub fn internal(message: String) -> (r: Self)
        ensures
            r == RariError::Internal(message, None),
    {
        RariError::Internal(message, None)
    }

    /// A request was malformed.
    pub fn bad_request(message: String) -> (r: Self)
        ensures
            r == RariError::BadRequest(message, None),
    {
        RariError::BadRequest(message, None)
    }

    /// A value could not be serialized.
    pub fn serialization(message: String) -> (r: Self)
        ensures
            r == RariError::Serialization(message, None),
    {
        RariError::Serialization(message, None)
    }

    /// A value could not be deserialized.
    pub fn deserialization(message: String) -> (r: Self)
        ensures
            r == RariError::Deserialization(message, None),
    {
        RariError::Deserialization(message, None)
    }

    /// The runtime was in the wrong state.
    pub fn state(message: String) -> (r: Self)
        ensures
            r == RariError::State(message, None),
    {
        RariError::State(message, None)
    }

    /// A network operation failed.
    pub fn network(message: String) -> (r: Self)
        ensures
            r == RariError::Network(message, None),
    {
        RariError::Network(message, None)
    }

    /// An operation took too long.
    pub fn timeout(message: String) -> (r: Self)
        ensures
            r == RariError::Timeout(message, None),
    {
        RariError::Timeout(message, None)
    }

    /// The server failed.
    pub fn server_error(message: String) -> (r: Self)
        ensures
            r == RariError::ServerError(message, None),
    {
        RariError::ServerError(message, None)
    }

    /// Running JavaScript failed.
    pub fn js_execution(message: String) -> (r: Self)
        ensures
            r == RariError::JsExecution(message, None),
    {
        RariError::JsExecution(message, None)
    }

    /// The JavaScript runtime failed.
    pub fn js_runtime(message: String) -> (r: Self)
        ensures
            r == RariError::JsRuntime(message, None),
    {
        RariError::JsRuntime(message, None)
    }

    /// An I/O operation failed.
    pub fn io(message: String) -> (r: Self)
        ensures
            r == RariError::IoError(message, None),
    {
        RariError::IoError(message, None)
    }

    /// The configuration is wrong; reported as an internal error.
    pub fn configuration(message: String) -> (r: Self)
        ensures
            r == RariError::Internal(message, None),
    {
        RariError::Internal(message, None)
    }

    /// Input could not be parsed; reported as a deserialization error.
    pub fn parsing(message: String) -> (r: Self)
        ensures
            r == RariError::Deserialization(message, None),
    {
        RariError::Deserialization(message, None)
    }

    /// Start-up failed; reported as an internal error.
    pub fn initialization(message: String) -> (r: Self)
        ensures
            r == RariError::Internal(message, None),
    {
        RariError::Internal(message, None)
    }

    /// A server function failed; reported as a server error.
    pub fn server_function_error(message: String) -> (r: Self)
        ensures
            r == RariError::ServerError(message, None),
    {
        RariError::ServerError(message, None)
    }

    /// A module reload failed.
    pub fn module_reload(error: ModuleReloadError) -> (r: Self)
        ensures
            r == RariError::ModuleReload(error, None),
    {
        RariError::ModuleReload(error, None)
    }

    /// A reloaded module did not parse.
    pub fn module_reload_syntax_error(
        message: String,
        file_path: String,
        line: Option<u32>,
        column: Option<u32>,
    ) -> (r: Self)
        ensures
            r == RariError::ModuleReload(
                ModuleReloadError::SyntaxError { message, file_path, line, column },
                None,
            ),
    {
        RariError::ModuleReload(
            ModuleReloadError::SyntaxError { message, file_path, line, column },
            None,
        )
    }

    /// A reloaded module raised an error while it ran.
    pub fn module_reload_runtime_error(
        message: String,
        file_path: String,
        stack: Option<String>,
        error_name: Option<String>,
    ) -> (r: Self)
        ensures
            r == RariError::ModuleReload(
                ModuleReloadError::RuntimeError { message, file_path, stack, error_name },
                None,
            ),
    {
        RariError::ModuleReload(
            ModuleReloadError::RuntimeError { message, file_path, stack, error_name },
            None,
        )
    }

    /// Reloading a module took longer than `timeout_ms` milliseconds.
    pub fn module_reload_timeout(message: String, file_path: String, timeout_ms: u64) -> (r: Self)
        ensures
            r == RariError::ModuleReload(
                ModuleReloadError::Timeout { message, file_path, timeout_ms },
                None,
            ),
    {
        RariError::ModuleReload(ModuleReloadError::Timeout { message, file_path, timeout_ms }, None)
    }

    /// The module to reload was not found.
    pub fn module_reload_not_found(message: String, file_path: String) -> (r: Self)
        ensures
            r == RariError::ModuleReload(ModuleReloadError::NotFound { message, file_path }, None),
    {
        RariError::ModuleReload(ModuleReloadError::NotFound { message, file_path }, None)
    }

    /// Reloading a module failed `attempts` times.
    pub fn module_reload_max_retries(
        message: String,
        file_path: String,
        attempts: usize,
        last_error: Option<String>,
    ) -> (r: Self)
        ensures
            r == RariError::ModuleReload(
                ModuleReloadError::MaxRetriesExceeded { message, file_path, attempts, last_error },
                None,
            ),
    {
        RariError::ModuleReload(
            ModuleReloadError::MaxRetriesExceeded { message, file_path, attempts, last_error },
            None,
        )
    }

    /// The module reload helpers were used before they were set up.
    pub fn module_reload_helpers_not_initialized(message: String) -> (r: Self)
        ensures
            r == RariError::ModuleReload(ModuleReloadError::HelpersNotInitialized { message }, None),
    {
        RariError::ModuleReload(ModuleReloadError::HelpersNotInitialized { message }, None)
    }

    /// No JavaScript runtime was available for the reload.
    pub fn module_reload_runtime_not_available(message: String) -> (r: Self)
        ensures
            r == RariError::ModuleReload(ModuleReloadError::RuntimeNotAvailable { message }, None),
    {
        RariError::ModuleReload(ModuleReloadError::RuntimeNotAvailable { message }, None)
    }

    /// Any other reload failure, perhaps tied to a file.
    pub fn module_reload_other(message: String, file_path: Option<String>) -> (r: Self)
        ensures
            r == RariError::ModuleReload(ModuleReloadError::Other { message, file_path }, None),
    {
        RariError::ModuleReload(ModuleReloadError::Other { message, file_path }, None)
    }
}


impl RariError {
    /// The human-readable report of the error.
    pub open spec fn display_text(self) -> Seq<char> {
        match self {
            RariError::NotFound(m, _) => "Not found: "@ + m@,
            RariError::Validation(m, _) => "Validation error: "@ + m@,
            RariError::Internal(m, _) => m@,
            RariError::BadRequest(m, _) => "Bad request: "@ + m@,
            RariError::Serialization(m, _) => "Serialization error: "@ + m@,
            RariError::Deserialization(m, _) => "Deserialization error: "@ + m@,
            RariError::State(m, _) => "State error: "@ + m@,
            RariError::Network(m, _) => "Network error: "@ + m@,
            RariError::Timeout(m, _) => "Timeout error: "@ + m@,
            RariError::ServerError(m, _) => "Server error: "@ + m@,
            RariError::JsExecution(m, _) => "JavaScript execution error: "@ + m@,
            RariError::JsRuntime(m, _) => "JavaScript runtime error: "@ + m@,
            RariError::IoError(m, _) => "I/O error: "@ + m@,
            RariError::ModuleReload(e, _) => "Module reload error: "@ + e.display_text(),
        }
    }

    /// The human-readable report of the error.
    pub fn to_string(&self) -> (r: String)
        ensures
            r@ == self.display_text(),
    {
        match self {
            RariError::NotFound(m, _) => String::from_str("Not found: ").concat(m.as_str()),
            RariError::Validation(m, _) => String::from_str("Validation error: ").concat(m.as_str()),
            RariError::Internal(m, _) => m.clone(),
            RariError::BadRequest(m, _) => String::from_str("Bad request: ").concat(m.as_str()),
            RariError::Serialization(m, _) => String::from_str("Serialization error: ").concat(
                m.as_str(),
            ),
            RariError::Deserialization(m, _) => String::from_str("Deserialization error: ").concat(
                m.as_str(),
            ),
            RariError::State(m, _) => String::from_str("State error: ").concat(m.as_str()),
            RariError::Network(m, _) => String::from_str("Network error: ").concat(m.as_str()),
            RariError::Timeout(m, _) => String::from_str("Timeout error: ").concat(m.as_str()),
            RariError::ServerError(m, _) => String::from_str("Server error: ").concat(m.as_str()),
            RariError::JsExecution(m, _) => String::from_str("JavaScript execution error: ").concat(
                m.as_str(),
            ),
            RariError::JsRuntime(m, _) => String::from_str("JavaScript runtime error: ").concat(
                m.as_str(),
            ),
            RariError::IoError(m, _) => String::from_str("I/O error: ").concat(m.as_str()),
            RariError::ModuleReload(e, _) => {
                let inner = e.to_string();
                String::from_str("Module reload error: ").concat(inner.as_str())
            },
        }
    }
}

impl From<String> for RariError {
    /// A plain message becomes an internal error.
    fn from(error: String) -> (r: Self) {
        RariError::Internal(error, None)
    }
}

impl vstd::std_specs::convert::FromSpecImpl<String> for RariError {
    open spec fn obeys_from_spec() -> bool {
        true
    }

    open spec fn from_spec(error: String) -> RariError {
        RariError::Internal(error, None)
    }
}

impl From<&str> for RariError {
    /// A plain message becomes an internal error.
    fn from(error: &str) -> (r: Self)
        ensures
            r matches RariError::Internal(m, None) && m@ == error@,
    {
        RariError::Internal(String::from_str(error), None)
    }
}

/// A spec function can name no `String` by its text alone, so the conversion
/// from `&str` is described by the `ensures` of its `from`, not here.
impl vstd::std_specs::convert::FromSpecImpl<&str> for RariError {
    open spec fn obeys_from_spec() -> bool {
        false
    }

    open spec fn from_spec(error: &str) -> RariError {
        RariError::Internal(arbitrary(), None)
    }
}


/// Reading a property gives back the value last written under that key.
pub proof fn law_get_after_set(before: RariError, after: RariError, key: Seq<char>, value: Seq<char>)
    requires
        RariError::property_set(before, after, key, value),
    ensures
        after.property(key) == Some(value),
{
}

/// Writing a property leaves every other property as it was.
pub proof fn law_set_keeps_other_properties(
    before: RariError,
    after: RariError,
    key: Seq<char>,
    value: Seq<char>,
    other: Seq<char>,
)
    requires
        RariError::property_set(before, after, key, value),
        other != key,
    ensures
        after.property(other) == before.property(other),
{
}

/// Writing a property changes neither the kind, the code, the message nor the report.
pub proof fn law_set_keeps_error(before: RariError, after: RariError, key: Seq<char>, value: Seq<char>)
    requires
        RariError::property_set(before, after, key, value),
    ensures
        after.code_text() == before.code_text(),
        after.message_text() == before.message_text(),
        after.display_text() == before.display_text(),
        after.with_meta(None) == before.with_meta(None),
{
}

/// Metadata that a property write creates carries the error's own code.
pub proof fn law_new_metadata_carries_code(
    before: RariError,
    after: RariError,
    key: Seq<char>,
    value: Seq<char>,
)
    requires
        RariError::property_set(before, after, key, value),
        before.meta() is None,
    ensures
        after.meta_text() matches Some(m) && m.code == before.code_text() && m.source is None,
{
}

/// After a property is removed, reading it gives nothing; every other
/// property, the code, the message and the report stay.
pub proof fn law_remove_then_get(before: RariError, after: RariError, key: Seq<char>, other: Seq<char>)
    requires
        RariError::property_removed(before, after, key),
        other != key,
    ensures
        after.property(key) is None,
        after.property(other) == before.property(other),
        after.code_text() == before.code_text(),
        after.message_text() == before.message_text(),
        after.display_text() == before.display_text(),
{
}

/// Recording the source keeps every property, the code, the message and the
/// report, and the recorded text is what the metadata holds as source.
pub proof fn law_source_keeps_properties(
    before: RariError,
    after: RariError,
    source: Seq<char>,
    key: Seq<char>,
)
    requires
        RariError::source_recorded(before, after, source),
    ensures
        after.property(key) == before.property(key),
        after.meta_text() matches Some(m) && m.source == Some(source),
        after.code_text() == before.code_text(),
        after.message_text() == before.message_text(),
        after.display_text() == before.display_text(),
{
}

/// A wrapped reload failure reports the failure's own code and message.
pub proof fn law_module_reload_reports_inner(e: ModuleReloadError, m: Option<ErrorMetadata>)
    ensures
        RariError::ModuleReload(e, m).code_text() == e.code_text(),
        RariError::ModuleReload(e, m).message_text() == e.message_text(),
{
}

} // verus!
