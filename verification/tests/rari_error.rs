use rari::module_reload::ModuleReloadError;
use rari::rari_error::{ErrorMetadata, RariError};

fn s(x: &str) -> String {
    x.to_string()
}

#[test]
fn constructors_codes_messages_reports() {
    let cases: Vec<(RariError, &str, &str)> = vec![
        (RariError::not_found(s("m")), "NOT_FOUND", "Not found: m"),
        (RariError::validation(s("m")), "VALIDATION", "Validation error: m"),
        (RariError::internal(s("m")), "INTERNAL", "m"),
        (RariError::bad_request(s("m")), "BAD_REQUEST", "Bad request: m"),
        (RariError::serialization(s("m")), "SERIALIZATION_ERROR", "Serialization error: m"),
        (RariError::deserialization(s("m")), "DESERIALIZATION_ERROR", "Deserialization error: m"),
        (RariError::state(s("m")), "STATE_ERROR", "State error: m"),
        (RariError::network(s("m")), "NETWORK", "Network error: m"),
        (RariError::timeout(s("m")), "TIMEOUT_ERROR", "Timeout error: m"),
        (RariError::server_error(s("m")), "SERVER_ERROR", "Server error: m"),
        (RariError::js_execution(s("m")), "JS_EXECUTION_ERROR", "JavaScript execution error: m"),
        (RariError::js_runtime(s("m")), "JS_RUNTIME_ERROR", "JavaScript runtime error: m"),
        (RariError::io(s("m")), "IO_ERROR", "I/O error: m"),
        (RariError::configuration(s("m")), "INTERNAL", "m"),
        (RariError::parsing(s("m")), "DESERIALIZATION_ERROR", "Deserialization error: m"),
        (RariError::initialization(s("m")), "INTERNAL", "m"),
        (RariError::server_function_error(s("m")), "SERVER_ERROR", "Server error: m"),
    ];
    for (e, code, report) in cases {
        assert_eq!(e.code(), code);
        assert_eq!(e.message(), "m");
        assert_eq!(e.to_string(), report);
        assert!(e.metadata().is_none());
    }
}

#[test]
fn module_reload_constructors() {
    let e = RariError::module_reload_syntax_error(s("bad"), s("a.js"), Some(1), Some(2));
    assert_eq!(e.code(), "MODULE_RELOAD_SYNTAX_ERROR");
    assert_eq!(e.message(), "bad");
    assert_eq!(e.to_string(), "Module reload error: Syntax error in a.js at line 1, column 2: bad");
    let e = RariError::module_reload_runtime_error(s("boom"), s("a.js"), None, Some(s("TypeError")));
    assert_eq!(e.code(), "MODULE_RELOAD_RUNTIME_ERROR");
    assert_eq!(e.to_string(), "Module reload error: TypeError in a.js: boom");
    let e = RariError::module_reload_timeout(s("slow"), s("a.js"), 250);
    assert_eq!(e.code(), "MODULE_RELOAD_TIMEOUT");
    assert_eq!(e.to_string(), "Module reload error: Module reload timed out after 250ms for a.js");
    let e = RariError::module_reload_not_found(s("gone"), s("a.js"));
    assert_eq!(e.code(), "MODULE_RELOAD_NOT_FOUND");
    assert_eq!(e.message(), "gone");
    let e = RariError::module_reload_max_retries(s("again"), s("a.js"), 5, Some(s("x")));
    assert_eq!(e.code(), "MODULE_RELOAD_MAX_RETRIES");
    assert_eq!(e.to_string(), "Module reload error: Module reload failed after 5 attempts for a.js. Last error: x");
    let e = RariError::module_reload_helpers_not_initialized(s("h"));
    assert_eq!(e.code(), "MODULE_RELOAD_HELPERS_NOT_INITIALIZED");
    let e = RariError::module_reload_runtime_not_available(s("r"));
    assert_eq!(e.code(), "MODULE_RELOAD_RUNTIME_NOT_AVAILABLE");
    assert_eq!(e.to_string(), "Module reload error: JavaScript runtime not available: r");
    let e = RariError::module_reload_other(s("o"), None);
    assert_eq!(e.code(), "MODULE_RELOAD_ERROR");
    assert_eq!(e.to_string(), "Module reload error: Module reload error: o");
    let e = RariError::module_reload(ModuleReloadError::NotFound { message: s("n"), file_path: s("b.js") });
    assert_eq!(e.code(), "MODULE_RELOAD_NOT_FOUND");
    assert_eq!(e.message(), "n");
}

#[test]
fn set_get_remove_property() {
    let mut e = RariError::network(s("down"));
    assert_eq!(e.get_property("host"), None);
    e.set_property("host", "example.com");
    assert_eq!(e.get_property("host"), Some("example.com"));
    let meta = e.metadata().unwrap();
    assert_eq!(meta.code, "NETWORK");
    assert_eq!(meta.source, None);
    e.set_property("host", "other.org");
    e.set_property("port", "80");
    assert_eq!(e.get_property("host"), Some("other.org"));
    assert_eq!(e.get_property("port"), Some("80"));
    e.remove_property("host");
    assert_eq!(e.get_property("host"), None);
    assert_eq!(e.get_property("port"), Some("80"));
    assert_eq!(e.code(), "NETWORK");
    assert_eq!(e.message(), "down");
}

#[test]
fn remove_property_without_metadata_changes_nothing() {
    let mut e = RariError::state(s("bad"));
    e.remove_property("x");
    assert!(e.metadata().is_none());
    let mut f = RariError::State(s("bad"), Some(ErrorMetadata { code: s("C"), details: None, source: None }));
    f.remove_property("x");
    assert_eq!(f.metadata().unwrap().details, None);
}

#[test]
fn set_property_fills_missing_table() {
    let mut e = RariError::Validation(s("v"), Some(ErrorMetadata { code: s("OWN"), details: None, source: Some(s("src")) }));
    e.set_property("k", "v");
    let meta = e.metadata().unwrap();
    assert_eq!(meta.code, "OWN");
    assert_eq!(meta.source.as_deref(), Some("src"));
    assert_eq!(e.get_property("k"), Some("v"));
}

#[test]
fn with_property_chains() {
    let e = RariError::bad_request(s("no")).with_property("a", "1").with_property("b", "2");
    assert_eq!(e.get_property("a"), Some("1"));
    assert_eq!(e.get_property("b"), Some("2"));
    assert_eq!(e.code(), "BAD_REQUEST");
}

#[test]
fn with_source_records_text() {
    let e = RariError::internal(s("oops")).with_source(s("disk full"));
    let meta = e.metadata().unwrap();
    assert_eq!(meta.code, "INTERNAL");
    assert_eq!(meta.source.as_deref(), Some("disk full"));
    assert!(meta.details.as_ref().unwrap().is_empty());
    let e = e.with_property("k", "v").with_source(s("second"));
    assert_eq!(e.get_property("k"), Some("v"));
    assert_eq!(e.metadata().unwrap().source.as_deref(), Some("second"));
}

#[test]
fn module_reload_metadata_takes_inner_code() {
    let e = RariError::module_reload_not_found(s("gone"), s("a.js")).with_property("k", "v");
    assert_eq!(e.metadata().unwrap().code, "MODULE_RELOAD_NOT_FOUND");
}

#[test]
fn from_plain_messages() {
    let e: RariError = RariError::from(s("plain"));
    assert_eq!(e, RariError::Internal(s("plain"), None));
    let e: RariError = "text".into();
    assert_eq!(e, RariError::Internal(s("text"), None));
}

#[test]
fn from_json_error() {
    let err = serde_json::from_str::<serde_json::Value>("{").unwrap_err();
    let text = err.to_string();
    let e = RariError::from(err);
    assert_eq!(e.code(), "SERIALIZATION_ERROR");
    assert_eq!(e.message(), text);
    let meta = e.metadata().unwrap();
    assert_eq!(meta.code, "JSON_ERROR");
    assert_eq!(meta.details, None);
    assert_eq!(meta.source.as_deref(), Some("serde_json"));
}

#[test]
fn from_io_error() {
    let err = std::io::Error::new(std::io::ErrorKind::Other, "disk full");
    let e = RariError::from(err);
    assert_eq!(e.code(), "IO_ERROR");
    assert_eq!(e.message(), "disk full");
    assert_eq!(e.to_string(), "I/O error: disk full");
    let meta = e.metadata().unwrap();
    assert_eq!(meta.code, "IO_ERROR");
    assert_eq!(meta.source.as_deref(), Some("std::io::Error"));
}

#[test]
fn from_text_helpers() {
    let e = RariError::from_io_error_text(s("x"));
    assert_eq!(e.metadata().unwrap().code, "IO_ERROR");
    let e = RariError::from_json_error_text(s("y"));
    assert_eq!(e.message(), "y");
    assert_eq!(e.metadata().unwrap().code, "JSON_ERROR");
}

#[test]
fn metadata_clone_keeps_code_table_and_source() {
    let e = RariError::internal(s("x")).with_property("k", "v").with_source(s("cause"));
    let meta = e.metadata().unwrap();
    let copy = meta.clone();
    assert_eq!(copy.code, meta.code);
    assert_eq!(copy.details, meta.details);
    assert_eq!(copy.source, meta.source);
    assert_eq!(&copy, meta);
}
