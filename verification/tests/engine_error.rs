use rari::error::Error;

fn s(x: &str) -> String {
    x.to_string()
}

#[test]
fn engine_error_reports() {
    assert_eq!(Error::MissingEntrypoint(s("mod")).to_string(), "mod has no entrypoint. Register one, or add a default to the runtime");
    assert_eq!(Error::ValueNotFound(s("f")).to_string(), "f could not be found in global, or module exports");
    assert_eq!(Error::ValueNotCallable(s("f")).to_string(), "f is not a function");
    assert_eq!(Error::V8Encoding(s("v")).to_string(), "v could not be encoded as a v8 value");
    assert_eq!(Error::JsonDecode(s("bad")).to_string(), "value could not be deserialized: bad");
    assert_eq!(Error::ModuleNotFound(s("m")).to_string(), "m");
    assert_eq!(Error::WorkerHasStopped.to_string(), "This worker has been destroyed");
    assert_eq!(Error::Runtime(s("r")).to_string(), "r");
    assert_eq!(Error::JsError(s("Uncaught x")).to_string(), "Uncaught x");
    assert_eq!(Error::Timeout(s("t")).to_string(), "Module timed out: t");
    assert_eq!(Error::HeapExhausted.to_string(), "Heap exhausted");
}

#[test]
fn engine_error_from_messages() {
    match Error::from(s("a")) {
        Error::Runtime(m) => assert_eq!(m, "a"),
        other => panic!("unexpected {:?}", other),
    }
    match Error::from("b") {
        Error::Runtime(m) => assert_eq!(m, "b"),
        other => panic!("unexpected {:?}", other),
    }
}

#[test]
fn engine_error_from_json_error() {
    let err = serde_json::from_str::<serde_json::Value>("[1,").unwrap_err();
    let text = err.to_string();
    match Error::from(err) {
        Error::JsonDecode(m) => assert_eq!(m, text),
        other => panic!("unexpected {:?}", other),
    }
}

#[test]
fn engine_error_from_borrow_error() {
    let cell = std::cell::RefCell::new(1);
    let _held = cell.borrow();
    let err = cell.try_borrow_mut().unwrap_err();
    let text = err.to_string();
    match Error::from(err) {
        Error::Runtime(m) => assert_eq!(m, text),
        other => panic!("unexpected {:?}", other),
    }
}
