//! Error types of the rari runtime: module-reload diagnostics, the runtime's
//! error enum with its per-error property metadata, and the JavaScript
//! engine error enum, with the text helpers they are built on.

pub mod text;
pub mod module_reload;
pub mod properties;
pub mod rari_error;
pub mod conversions;
pub mod error;
