use rari::module_reload::ModuleReloadError;

fn loc(m: &str) -> (Option<u32>, Option<u32>) {
    ModuleReloadError::extract_line_column(m)
}

#[test]
fn location_line_and_column() {
    assert_eq!(loc("Unexpected token (line 10, column 5)"), (Some(10), Some(5)));
}

#[test]
fn location_line_without_column() {
    assert_eq!(loc("line 7: bad"), (Some(7), None));
    assert_eq!(loc("line 3 a:1:2 x"), (Some(3), None));
}

#[test]
fn location_line_at_end_of_message_is_not_taken() {
    assert_eq!(loc("error at line 7"), (None, None));
}

#[test]
fn location_column_that_does_not_parse() {
    assert_eq!(loc("line 4, column 99999999999 x"), (Some(4), None));
}

#[test]
fn location_colon_form() {
    assert_eq!(loc("file.js:12:34 unexpected"), (Some(12), Some(34)));
    assert_eq!(loc("a:+7:1 "), (Some(7), Some(1)));
}

#[test]
fn location_colon_form_needs_text_after_column() {
    assert_eq!(loc("file.js:12:34"), (None, None));
}

#[test]
fn location_colon_form_needs_numeric_line() {
    assert_eq!(loc("Error: something: else"), (None, None));
}

#[test]
fn location_none_found() {
    assert_eq!(loc(""), (None, None));
    assert_eq!(loc("nothing here"), (None, None));
    assert_eq!(loc("line x column 3"), (None, None));
}

#[test]
fn location_line_overflow_falls_back() {
    assert_eq!(loc("line 99999999999 here"), (None, None));
    assert_eq!(loc("line 99999999999 here x:5:6 y"), (Some(5), Some(6)));
}

#[test]
fn location_non_ascii_numeric_is_not_parsed() {
    assert_eq!(loc("line \u{0663} x"), (None, None));
}

#[test]
fn location_largest_line() {
    assert_eq!(loc("line 4294967295 x"), (Some(4294967295), None));
    assert_eq!(loc("line 4294967296 x"), (None, None));
}

#[test]
fn classify_syntax_error() {
    let e = ModuleReloadError::from_js_error(
        "Unexpected token (line 10, column 5)".to_string(),
        "app.js".to_string(),
        Some("stack".to_string()),
        Some("SyntaxError".to_string()),
    );
    assert_eq!(
        e,
        ModuleReloadError::SyntaxError {
            message: "Unexpected token (line 10, column 5)".to_string(),
            file_path: "app.js".to_string(),
            line: Some(10),
            column: Some(5),
        }
    );
    assert_eq!(e.code(), "MODULE_RELOAD_SYNTAX_ERROR");
}

#[test]
fn classify_syntax_error_by_name_part() {
    let e = ModuleReloadError::from_js_error(
        "Cannot find module 'x'".to_string(),
        "a.js".to_string(),
        None,
        Some("MySyntaxErrorKind".to_string()),
    );
    assert_eq!(e.code(), "MODULE_RELOAD_SYNTAX_ERROR");
}

#[test]
fn classify_not_found() {
    for msg in ["Cannot find module 'x'", "Module not found: y", "thing not found"] {
        let e = ModuleReloadError::from_js_error(
            msg.to_string(),
            "a.js".to_string(),
            Some("s".to_string()),
            Some("TypeError".to_string()),
        );
        assert_eq!(
            e,
            ModuleReloadError::NotFound { message: msg.to_string(), file_path: "a.js".to_string() }
        );
    }
}

#[test]
fn classify_runtime_error() {
    let e = ModuleReloadError::from_js_error(
        "x is not defined".to_string(),
        "a.js".to_string(),
        Some("at a.js:1:1".to_string()),
        None,
    );
    assert_eq!(
        e,
        ModuleReloadError::RuntimeError {
            message: "x is not defined".to_string(),
            file_path: "a.js".to_string(),
            stack: Some("at a.js:1:1".to_string()),
            error_name: None,
        }
    );
    assert_eq!(e.message(), "x is not defined");
    assert_eq!(e.file_path(), Some("a.js"));
}

#[test]
fn codes_of_every_kind() {
    let s = |x: &str| x.to_string();
    let cases = vec![
        (ModuleReloadError::SyntaxError { message: s("m"), file_path: s("f"), line: None, column: None }, "MODULE_RELOAD_SYNTAX_ERROR", Some("f")),
        (ModuleReloadError::RuntimeError { message: s("m"), file_path: s("f"), stack: None, error_name: None }, "MODULE_RELOAD_RUNTIME_ERROR", Some("f")),
        (ModuleReloadError::Timeout { message: s("m"), file_path: s("f"), timeout_ms: 1 }, "MODULE_RELOAD_TIMEOUT", Some("f")),
        (ModuleReloadError::NotFound { message: s("m"), file_path: s("f") }, "MODULE_RELOAD_NOT_FOUND", Some("f")),
        (ModuleReloadError::MaxRetriesExceeded { message: s("m"), file_path: s("f"), attempts: 2, last_error: None }, "MODULE_RELOAD_MAX_RETRIES", Some("f")),
        (ModuleReloadError::HelpersNotInitialized { message: s("m") }, "MODULE_RELOAD_HELPERS_NOT_INITIALIZED", None),
        (ModuleReloadError::RuntimeNotAvailable { message: s("m") }, "MODULE_RELOAD_RUNTIME_NOT_AVAILABLE", None),
        (ModuleReloadError::Other { message: s("m"), file_path: Some(s("f")) }, "MODULE_RELOAD_ERROR", Some("f")),
        (ModuleReloadError::Other { message: s("m"), file_path: None }, "MODULE_RELOAD_ERROR", None),
    ];
    for (e, code, path) in cases {
        assert_eq!(e.code(), code);
        assert_eq!(e.file_path(), path);
        assert_eq!(e.message(), "m");
    }
}

#[test]
fn display_syntax_error() {
    let s = |x: &str| x.to_string();
    let full = ModuleReloadError::SyntaxError { message: s("bad"), file_path: s("a.js"), line: Some(3), column: Some(4) };
    assert_eq!(full.to_string(), "Syntax error in a.js at line 3, column 4: bad");
    let line = ModuleReloadError::SyntaxError { message: s("bad"), file_path: s("a.js"), line: Some(3), column: None };
    assert_eq!(line.to_string(), "Syntax error in a.js at line 3: bad");
    let col = ModuleReloadError::SyntaxError { message: s("bad"), file_path: s("a.js"), line: None, column: Some(4) };
    assert_eq!(col.to_string(), "Syntax error in a.js: bad");
}

#[test]
fn display_other_kinds() {
    let s = |x: &str| x.to_string();
    assert_eq!(
        ModuleReloadError::RuntimeError { message: s("boom"), file_path: s("a.js"), stack: None, error_name: Some(s("TypeError")) }.to_string(),
        "TypeError in a.js: boom"
    );
    assert_eq!(
        ModuleReloadError::RuntimeError { message: s("boom"), file_path: s("a.js"), stack: None, error_name: None }.to_string(),
        "Runtime error in a.js: boom"
    );
    assert_eq!(
        ModuleReloadError::Timeout { message: s("m"), file_path: s("a.js"), timeout_ms: 1500 }.to_string(),
        "Module reload timed out after 1500ms for a.js"
    );
    assert_eq!(
        ModuleReloadError::Timeout { message: s("m"), file_path: s("a.js"), timeout_ms: u64::MAX }.to_string(),
        "Module reload timed out after 18446744073709551615ms for a.js"
    );
    assert_eq!(
        ModuleReloadError::Timeout { message: s("m"), file_path: s("a.js"), timeout_ms: 0 }.to_string(),
        "Module reload timed out after 0ms for a.js"
    );
    assert_eq!(ModuleReloadError::NotFound { message: s("m"), file_path: s("a.js") }.to_string(), "Module not found: a.js");
    assert_eq!(
        ModuleReloadError::MaxRetriesExceeded { message: s("m"), file_path: s("a.js"), attempts: 3, last_error: Some(s("boom")) }.to_string(),
        "Module reload failed after 3 attempts for a.js. Last error: boom"
    );
    assert_eq!(
        ModuleReloadError::MaxRetriesExceeded { message: s("m"), file_path: s("a.js"), attempts: 10, last_error: None }.to_string(),
        "Module reload failed after 10 attempts for a.js"
    );
    assert_eq!(ModuleReloadError::HelpersNotInitialized { message: s("m") }.to_string(), "Module reload helpers not initialized: m");
    assert_eq!(ModuleReloadError::RuntimeNotAvailable { message: s("m") }.to_string(), "JavaScript runtime not available: m");
    assert_eq!(ModuleReloadError::Other { message: s("m"), file_path: Some(s("p")) }.to_string(), "Module reload error for p: m");
    assert_eq!(ModuleReloadError::Other { message: s("m"), file_path: None }.to_string(), "Module reload error: m");
}
