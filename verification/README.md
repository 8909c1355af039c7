# rari errors

The error types of the rari runtime, written in Verus and verified.

- `src/text.rs`: substring search, the numeric run of a message, decimal
  parsing (as `u32::from_str` accepts it) and decimal rendering, specified
  over `Seq<char>`.
- `src/module_reload.rs`: `ModuleReloadError`, its codes, messages and
  reports, the classification of an error raised during a reload and the
  line/column found in its message.
- `src/properties.rs`: the `FxHashMap` property table seen through its entries.
- `src/rari_error.rs`: `RariError` and `ErrorMetadata`: constructors,
  codes, reports, the property operations and the laws they obey.
- `src/conversions.rs`: errors of std, serde_json and tokio turned into
  `RariError`.
- `src/error.rs`: the engine's `Error` and its reports.
- `app/`: serde derives, `Display`, `std::error::Error` and the boxed source
  error, on copies of the library's types.
