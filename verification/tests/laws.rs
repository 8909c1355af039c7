use rari::module_reload::ModuleReloadError;
use rari::rari_error::RariError;

fn s(x: &str) -> String {
    x.to_string()
}

#[test]
fn law_read_after_write() {
    let mut e = RariError::timeout(s("slow"));
    e.set_property("k", "v1");
    e.set_property("k", "v2");
    assert_eq!(e.get_property("k"), Some("v2"));
}

#[test]
fn law_write_keeps_others_and_error() {
    let mut e = RariError::validation(s("bad")).with_property("a", "1");
    let before = e.clone();
    e.set_property("b", "2");
    assert_eq!(e.get_property("a"), Some("1"));
    assert_eq!(e.code(), before.code());
    assert_eq!(e.message(), before.message());
    assert_eq!(e.to_string(), before.to_string());
}

#[test]
fn law_remove_then_read() {
    let mut e = RariError::io(s("x")).with_property("a", "1").with_property("b", "2");
    e.remove_property("a");
    assert_eq!(e.get_property("a"), None);
    assert_eq!(e.get_property("b"), Some("2"));
    assert_eq!(e.code(), "IO_ERROR");
}

#[test]
fn law_source_keeps_properties() {
    let e = RariError::network(s("x")).with_property("a", "1").with_source(s("cause"));
    assert_eq!(e.get_property("a"), Some("1"));
    assert_eq!(e.metadata().unwrap().source.as_deref(), Some("cause"));
    assert_eq!(e.to_string(), "Network error: x");
}

#[test]
fn law_classification_keeps_message_and_file() {
    for (msg, name) in [("line 1, column 2 oops", Some(s("SyntaxError"))), ("not found", None), ("other", None)] {
        let e = ModuleReloadError::from_js_error(s(msg), s("f.js"), None, name);
        assert_eq!(e.message(), msg);
        assert_eq!(e.file_path(), Some("f.js"));
    }
}

#[test]
fn law_column_comes_with_line() {
    for m in ["a:1:2 x", "line 1, column 2 x", "column 3 x", "x:y:4 z"] {
        let (line, column) = ModuleReloadError::extract_line_column(m);
        assert!(column.is_none() || line.is_some());
    }
}

#[test]
fn law_module_reload_reports_inner() {
    let inner = ModuleReloadError::Timeout { message: s("m"), file_path: s("f"), timeout_ms: 9 };
    let e = RariError::module_reload(inner.clone());
    assert_eq!(e.code(), inner.code());
    assert_eq!(e.message(), inner.message());
}
