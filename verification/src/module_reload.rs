//! Diagnostics of a failed module reload: what went wrong, where, and the
//! stable code and text each kind of failure is reported with.
use vstd::prelude::*;

use crate::text::{
    is_numeric_char, lemma_find_first_at, lemma_find_first_char, lemma_find_first_char_none,
    lemma_find_first_none, lemma_first_non_numeric_at, lemma_first_non_numeric_none, occurs_at,
    chars_of, decimal, decimal_string, find_chars, find_first, find_non_numeric,
    first_non_numeric, parse_u32, parse_u32_spec, seq_contains, str_contains,
};

verus! {

/// Why reloading a module failed.
#[allow(inconsistent_fields)]
#[derive(Debug, Clone, PartialEq)]
pub enum ModuleReloadError {
    SyntaxError { message: String, file_path: String, line: Option<u32>, column: Option<u32> },
    RuntimeError {
        message: String,
        file_path: String,
        stack: Option<String>,
        error_name: Option<String>,
    },
    Timeout { message: String, file_path: String, timeout_ms: u64 },
    NotFound { message: String, file_path: String },
    MaxRetriesExceeded {
        message: String,
        file_path: String,
        attempts: usize,
        last_error: Option<String>,
    },
    HelpersNotInitialized { message: String },
    RuntimeNotAvailable { message: String },
    Other { message: String, file_path: Option<String> },
}

/// The text of an optional string.
pub open spec fn opt_text(o: Option<String>) -> Option<Seq<char>> {
    match o {
        Some(s) => Some(s@),
        None => None,
    }
}

/// The text of an optional string slice.
pub open spec fn opt_str_text(o: Option<&str>) -> Option<Seq<char>> {
    match o {
        Some(s) => Some(s@),
        None => None,
    }
}

/// `prefix` followed by the text of `o`, or nothing when `o` is absent.
pub open spec fn opt_suffix(prefix: Seq<char>, o: Option<Seq<char>>) -> Seq<char> {
    match o {
        Some(s) => prefix + s,
        None => Seq::empty(),
    }
}

impl ModuleReloadError {
    /// The stable code of the failure kind.
    pub open spec fn code_text(self) -> Seq<char> {
        match self {
            ModuleReloadError::SyntaxError { .. } => "MODULE_RELOAD_SYNTAX_ERROR"@,
            ModuleReloadError::RuntimeError { .. } => "MODULE_RELOAD_RUNTIME_ERROR"@,
            ModuleReloadError::Timeout { .. } => "MODULE_RELOAD_TIMEOUT"@,
            ModuleReloadError::NotFound { .. } => "MODULE_RELOAD_NOT_FOUND"@,
            ModuleReloadError::MaxRetriesExceeded { .. } => "MODULE_RELOAD_MAX_RETRIES"@,
            ModuleReloadError::HelpersNotInitialized { .. } => "MODULE_RELOAD_HELPERS_NOT_INITIALIZED"@,
            ModuleReloadError::RuntimeNotAvailable { .. } => "MODULE_RELOAD_RUNTIME_NOT_AVAILABLE"@,
            ModuleReloadError::Other { .. } => "MODULE_RELOAD_ERROR"@,
        }
    }

    /// The file the failure concerns, where the kind records one.
    pub open spec fn file_path_text(self) -> Option<Seq<char>> {
        match self {
            ModuleReloadError::SyntaxError { file_path, .. } => Some(file_path@),
            ModuleReloadError::RuntimeError { file_path, .. } => Some(file_path@),
            ModuleReloadError::Timeout { file_path, .. } => Some(file_path@),
            ModuleReloadError::NotFound { file_path, .. } => Some(file_path@),
            ModuleReloadError::MaxRetriesExceeded { file_path, .. } => Some(file_path@),
            ModuleReloadError::Other { file_path, .. } => opt_text(file_path),
            _ => None,
        }
    }

    /// The message every kind carries.
    pub open spec fn message_text(self) -> Seq<char> {
        match self {
            ModuleReloadError::SyntaxError { message, .. } => message@,
            ModuleReloadError::RuntimeError { message, .. } => message@,
            ModuleReloadError::Timeout { message, .. } => message@,
            ModuleReloadError::NotFound { message, .. } => message@,
            ModuleReloadError::MaxRetriesExceeded { message, .. } => message@,
            ModuleReloadError::HelpersNotInitialized { message } => message@,
            ModuleReloadError::RuntimeNotAvailable { message } => message@,
            ModuleReloadError::Other { message, .. } => message@,
        }
    }

    /// The stable code of the failure kind.
    pub fn code(&self) -> (r: &'static str)
        ensures
            r@ == self.code_text(),
    {
        match self {
            ModuleReloadError::SyntaxError { .. } => "MODULE_RELOAD_SYNTAX_ERROR",
            ModuleReloadError::RuntimeError { .. } => "MODULE_RELOAD_RUNTIME_ERROR",
            ModuleReloadError::Timeout { .. } => "MODULE_RELOAD_TIMEOUT",
            ModuleReloadError::NotFound { .. } => "MODULE_RELOAD_NOT_FOUND",
            ModuleReloadError::MaxRetriesExceeded { .. } => "MODULE_RELOAD_MAX_RETRIES",
            ModuleReloadError::HelpersNotInitialized { .. } => "MODULE_RELOAD_HELPERS_NOT_INITIALIZED",
            ModuleReloadError::RuntimeNotAvailable { .. } => "MODULE_RELOAD_RUNTIME_NOT_AVAILABLE",
            ModuleReloadError::Other { .. } => "MODULE_RELOAD_ERROR",
        }
    }

    /// The file the failure concerns, where the kind records one.
    pub fn file_path(&self) -> (r: Option<&str>)
        ensures
            opt_str_text(r) == self.file_path_text(),
    {
        match self {
            ModuleReloadError::SyntaxError { file_path, .. } => Some(file_path.as_str()),
            ModuleReloadError::RuntimeError { file_path, .. } => Some(file_path.as_str()),
            ModuleReloadError::Timeout { file_path, .. } => Some(file_path.as_str()),
            ModuleReloadError::NotFound { file_path, .. } => Some(file_path.as_str()),
            ModuleReloadError::MaxRetriesExceeded { file_path, .. } => Some(file_path.as_str()),
            ModuleReloadError::Other { file_path, .. } => match file_path {
                Some(p) => Some(p.as_str()),
                None => None,
            },
            _ => None,
        }
    }

    /// The message of the failure.
    pub fn message(&self) -> (r: &str)
        ensures
            r@ == self.message_text(),
    {
        match self {
            ModuleReloadError::SyntaxError { message, .. } => message.as_str(),
            ModuleReloadError::RuntimeError { message, .. } => message.as_str(),
            ModuleReloadError::Timeout { message, .. } => message.as_str(),
            ModuleReloadError::NotFound { message, .. } => message.as_str(),
            ModuleReloadError::MaxRetriesExceeded { message, .. } => message.as_str(),
            ModuleReloadError::HelpersNotInitialized { message } => message.as_str(),
            ModuleReloadError::RuntimeNotAvailable { message } => message.as_str(),
            ModuleReloadError::Other { message, .. } => message.as_str(),
        }
    }
}


/// The column of a "line N, column M" location: the number right after the
/// first `"column "` in `after`, when it ends before the text does.
pub open spec fn labelled_column(after: Seq<char>) -> Option<u32> {
    match find_first(after, "column "@) {
        None => None,
        Some(c) => {
            let rest = after.subrange(c + "column "@.len(), after.len() as int);
            match first_non_numeric(rest) {
                None => None,
                Some(e) => parse_u32_spec(rest.subrange(0, e)),
            }
        },
    }
}

/// A location written "line N" (and perhaps "column M" after it): the number
/// right after the first `"line "`, when it ends before the text does and
/// parses; `None` when that form does not apply.
pub open spec fn labelled_location(m: Seq<char>) -> Option<(Option<u32>, Option<u32>)> {
    match find_first(m, "line "@) {
        None => None,
        Some(p) => {
            let after = m.subrange(p + "line "@.len(), m.len() as int);
            match first_non_numeric(after) {
                None => None,
                Some(e) => match parse_u32_spec(after.subrange(0, e)) {
                    None => None,
                    Some(line) => Some((Some(line), labelled_column(after))),
                },
            }
        },
    }
}

/// A location written "...:LINE:COLUMN...": the text between the first and the
/// second colon is the line, the numeric run after the second colon (which must
/// end before the text does) is the column; both must parse.
pub open spec fn colon_location(m: Seq<char>) -> (Option<u32>, Option<u32>) {
    match find_first(m, seq![':']) {
        None => (None, None),
        Some(p) => {
            let after = m.subrange(p + 1, m.len() as int);
            match find_first(after, seq![':']) {
                None => (None, None),
                Some(q) => match parse_u32_spec(after.subrange(0, q)) {
                    None => (None, None),
                    Some(line) => {
                        let rest = after.subrange(q + 1, after.len() as int);
                        match first_non_numeric(rest) {
                            None => (None, None),
                            Some(e) => match parse_u32_spec(rest.subrange(0, e)) {
                                None => (None, None),
                                Some(column) => (Some(line), Some(column)),
                            },
                        }
                    },
                },
            }
        },
    }
}

/// The line and column that a JavaScript error message names: the
/// "line N" form first, the colon form otherwise.
pub open spec fn location_of(m: Seq<char>) -> (Option<u32>, Option<u32>) {
    match labelled_location(m) {
        Some(loc) => loc,
        None => colon_location(m),
    }
}

/// The message names a module that could not be found.
pub open spec fn reports_missing_module(m: Seq<char>) -> bool {
    ||| seq_contains(m, "Cannot find module"@)
    ||| seq_contains(m, "Module not found"@)
    ||| seq_contains(m, "not found"@)
}

/// The error was raised by the parser.
pub open spec fn is_syntax_error_name(error_name: Option<String>) -> bool {
    error_name matches Some(name) && seq_contains(name@, "SyntaxError"@)
}

/// How an error raised by a module during a reload is classified: a
/// `SyntaxError` (by name) with the location its message names, else a
/// missing module (by message), else a runtime error that keeps everything.
pub open spec fn classify_js_error(
    error_msg: String,
    file_path: String,
    stack: Option<String>,
    error_name: Option<String>,
) -> ModuleReloadError {
    if is_syntax_error_name(error_name) {
        ModuleReloadError::SyntaxError {
            message: error_msg,
            file_path: file_path,
            line: location_of(error_msg@).0,
            column: location_of(error_msg@).1,
        }
    } else if reports_missing_module(error_msg@) {
        ModuleReloadError::NotFound { message: error_msg, file_path: file_path }
    } else {
        ModuleReloadError::RuntimeError {
            message: error_msg,
            file_path: file_path,
            stack: stack,
            error_name: error_name,
        }
    }
}

impl ModuleReloadError {
    /// Classifies an error that a module raised while it was reloaded.
    pub fn from_js_error(
        error_msg: String,
        file_path: String,
        stack: Option<String>,
        error_name: Option<String>,
    ) -> (r: Self)
        ensures
            r == classify_js_error(error_msg, file_path, stack, error_name),
    {
        let is_syntax = match &error_name {
            Some(name) => str_contains(name.as_str(), "SyntaxError"),
            None => false,
        };
        if is_syntax {
            let (line, column) = Self::extract_line_column(error_msg.as_str());
            return ModuleReloadError::SyntaxError { message: error_msg, file_path, line, column };
        }
        if str_contains(error_msg.as_str(), "Cannot find module") || str_contains(
            error_msg.as_str(),
            "Module not found",
        ) || str_contains(error_msg.as_str(), "not found") {
            return ModuleReloadError::NotFound { message: error_msg, file_path };
        }
        ModuleReloadError::RuntimeError { message: error_msg, file_path, stack, error_name }
    }

    /// The line and column that a JavaScript error message names.
    pub fn extract_line_column(message: &str) -> (r: (Option<u32>, Option<u32>))
        ensures
            r == location_of(message@),
    {
        proof {
            reveal_strlit("line ");
            reveal_strlit("column ");
        }
        let m = chars_of(message);
        let ms = m.as_slice();
        let n = ms.len();
        let line_label = chars_of("line ");
        let column_label = chars_of("column ");
        if let Some(line_start) = find_chars(ms, line_label.as_slice()) {
            proof {
                crate::text::lemma_find_first_contains(ms@, line_label@);
                assert(line_label@.len() == 5);
                assert(crate::text::occurs_at(ms@, line_label@, line_start as int));
            }
            let after_line = &ms[line_start + 5..n];
            if let Some(line_end) = find_non_numeric(after_line) {
                proof {
                    crate::text::lemma_first_non_numeric_bound(after_line@);
                }
                if let Some(line) = parse_u32(&after_line[0..line_end]) {
                    if let Some(col_start) = find_chars(after_line, column_label.as_slice()) {
                        proof {
                            crate::text::lemma_find_first_contains(after_line@, column_label@);
                        }
                        let after_col = &after_line[col_start + 7..after_line.len()];
                        if let Some(col_end) = find_non_numeric(after_col) {
                            proof {
                                crate::text::lemma_first_non_numeric_bound(after_col@);
                            }
                            if let Some(column) = parse_u32(&after_col[0..col_end]) {
                                return (Some(line), Some(column));
                            }
                        }
                    }
                    return (Some(line), None);
                }
            }
        }
        let colon = chars_of(":");
        proof {
            reveal_strlit(":");
        }
        assert(colon@ =~= seq![':']);
        if let Some(colon_pos) = find_chars(ms, colon.as_slice()) {
            proof {
                crate::text::lemma_find_first_contains(ms@, colon@);
                assert(crate::text::occurs_at(ms@, colon@, colon_pos as int));
            }
            let after_colon = &ms[colon_pos + 1..n];
            if let Some(next_colon) = find_chars(after_colon, colon.as_slice()) {
                proof {
                    crate::text::lemma_find_first_contains(after_colon@, colon@);
                }
                if let Some(line) = parse_u32(&after_colon[0..next_colon]) {
                    let after_second = &after_colon[next_colon + 1..after_colon.len()];
                    if let Some(end) = find_non_numeric(after_second) {
                        proof {
                            crate::text::lemma_first_non_numeric_bound(after_second@);
                        }
                        if let Some(column) = parse_u32(&after_second[0..end]) {
                            return (Some(line), Some(column));
                        }
                    }
                }
            }
        }
        (None, None)
    }
}


impl ModuleReloadError {
    /// The human-readable report of the failure.
    pub open spec fn display_text(self) -> Seq<char> {
        match self {
            ModuleReloadError::SyntaxError { message, file_path, line, column } => {
                let location = match line {
                    Some(l) => " at line "@ + decimal(l as nat) + match column {
                        Some(c) => ", column "@ + decimal(c as nat),
                        None => Seq::empty(),
                    },
                    None => Seq::empty(),
                };
                "Syntax error in "@ + file_path@ + location + ": "@ + message@
            },
            ModuleReloadError::RuntimeError { message, file_path, error_name, .. } => {
                match error_name {
                    Some(name) => name@ + " in "@ + file_path@ + ": "@ + message@,
                    None => "Runtime error in "@ + file_path@ + ": "@ + message@,
                }
            },
            ModuleReloadError::Timeout { file_path, timeout_ms, .. } => "Module reload timed out after "@
                + decimal(timeout_ms as nat) + "ms for "@ + file_path@,
            ModuleReloadError::NotFound { file_path, .. } => "Module not found: "@ + file_path@,
            ModuleReloadError::MaxRetriesExceeded { file_path, attempts, last_error, .. } =>
                "Module reload failed after "@ + decimal(attempts as nat) + " attempts for "@
                + file_path@ + opt_suffix(". Last error: "@, opt_text(last_error)),
            ModuleReloadError::HelpersNotInitialized { message } =>
                "Module reload helpers not initialized: "@ + message@,
            ModuleReloadError::RuntimeNotAvailable { message } => "JavaScript runtime not available: "@
                + message@,
            ModuleReloadError::Other { message, file_path } => match file_path {
                Some(path) => "Module reload error for "@ + path@ + ": "@ + message@,
                None => "Module reload error: "@ + message@,
            },
        }
    }

    /// The human-readable report of the failure.
    pub fn to_string(&self) -> (r: String)
        ensures
            r@ == self.display_text(),
    {
        match self {
            ModuleReloadError::SyntaxError { message, file_path, line, column } => {
                let mut s = String::from_str("Syntax error in ");
                s.append(file_path.as_str());
                let ghost before = s@;
                if let Some(l) = line {
                    s.append(" at line ");
                    let ls = decimal_string(*l as u64);
                    s.append(ls.as_str());
                    if let Some(c) = column {
                        s.append(", column ");
                        let cs = decimal_string(*c as u64);
                        s.append(cs.as_str());
                    }
                }
                let ghost location = match line {
                    Some(l) => " at line "@ + decimal(*l as nat) + match column {
                        Some(c) => ", column "@ + decimal(*c as nat),
                        None => Seq::empty(),
                    },
                    None => Seq::<char>::empty(),
                };
                assert(s@ =~= before + location);
                s.append(": ");
                s.append(message.as_str());
                s
            },
            ModuleReloadError::RuntimeError { message, file_path, error_name, .. } => {
                let mut s = match error_name {
                    Some(name) => {
                        let mut s = String::from_str(name.as_str());
                        s.append(" in ");
                        s
                    },
                    None => String::from_str("Runtime error in "),
                };
                s.append(file_path.as_str());
                s.append(": ");
                s.append(message.as_str());
                s
            },
            ModuleReloadError::Timeout { file_path, timeout_ms, .. } => {
                let mut s = String::from_str("Module reload timed out after ");
                let ts = decimal_string(*timeout_ms);
                s.append(ts.as_str());
                s.append("ms for ");
                s.append(file_path.as_str());
                s
            },
            ModuleReloadError::NotFound { file_path, .. } => {
                let mut s = String::from_str("Module not found: ");
                s.append(file_path.as_str());
                s
            },
            ModuleReloadError::MaxRetriesExceeded { file_path, attempts, last_error, .. } => {
                let mut s = String::from_str("Module reload failed after ");
                let a = decimal_string(*attempts as u64);
                s.append(a.as_str());
                s.append(" attempts for ");
                s.append(file_path.as_str());
                let ghost before = s@;
                if let Some(err) = last_error {
                    s.append(". Last error: ");
                    s.append(err.as_str());
                }
                assert(s@ =~= before + opt_suffix(". Last error: "@, opt_text(*last_error)));
                s
            },
            ModuleReloadError::HelpersNotInitialized { message } => {
                let mut s = String::from_str("Module reload helpers not initialized: ");
                s.append(message.as_str());
                s
            },
            ModuleReloadError::RuntimeNotAvailable { message } => {
                let mut s = String::from_str("JavaScript runtime not available: ");
                s.append(message.as_str());
                s
            },
            ModuleReloadError::Other { message, file_path } => {
                let mut s = match file_path {
                    Some(path) => {
                        let mut s = String::from_str("Module reload error for ");
                        s.append(path.as_str());
                        s.append(": ");
                        s
                    },
                    None => String::from_str("Module reload error: "),
                };
                s.append(message.as_str());
                s
            },
        }
    }
}


/// Classifying an error keeps its message and the file it concerns.
pub proof fn law_classification_keeps_message_and_file(
    error_msg: String,
    file_path: String,
    stack: Option<String>,
    error_name: Option<String>,
)
    ensures
        classify_js_error(error_msg, file_path, stack, error_name).message_text() == error_msg@,
        classify_js_error(error_msg, file_path, stack, error_name).file_path_text() == Some(
            file_path@,
        ),
{
}

/// A column is only ever reported together with a line.
pub proof fn law_column_comes_with_line(message: Seq<char>)
    ensures
        location_of(message).1 is Some ==> location_of(message).0 is Some,
{
}

/// Different kinds of reload failure have different codes.
pub proof fn law_codes_tell_kinds_apart(a: ModuleReloadError, b: ModuleReloadError)
    ensures
        a.code_text() == b.code_text() ==> a.kind_index() == b.kind_index(),
{
    reveal_strlit("MODULE_RELOAD_SYNTAX_ERROR");
    reveal_strlit("MODULE_RELOAD_RUNTIME_ERROR");
    reveal_strlit("MODULE_RELOAD_TIMEOUT");
    reveal_strlit("MODULE_RELOAD_NOT_FOUND");
    reveal_strlit("MODULE_RELOAD_MAX_RETRIES");
    reveal_strlit("MODULE_RELOAD_HELPERS_NOT_INITIALIZED");
    reveal_strlit("MODULE_RELOAD_RUNTIME_NOT_AVAILABLE");
    reveal_strlit("MODULE_RELOAD_ERROR");
    if a.code_text() == b.code_text() && a.kind_index() != b.kind_index() {
        assert(a.code_text().len() == b.code_text().len());
        assert(a.code_text()[14] == b.code_text()[14]);
        assert(a.code_text()[16] == b.code_text()[16]);
        assert(a.code_text()[19] == b.code_text()[19]);
    }
}

impl ModuleReloadError {
    /// The position of the failure's kind in the declaration.
    pub open spec fn kind_index(self) -> int {
        match self {
            ModuleReloadError::SyntaxError { .. } => 0,
            ModuleReloadError::RuntimeError { .. } => 1,
            ModuleReloadError::Timeout { .. } => 2,
            ModuleReloadError::NotFound { .. } => 3,
            ModuleReloadError::MaxRetriesExceeded { .. } => 4,
            ModuleReloadError::HelpersNotInitialized { .. } => 5,
            ModuleReloadError::RuntimeNotAvailable { .. } => 6,
            ModuleReloadError::Other { .. } => 7,
        }
    }
}


/// An error whose name does not mention `SyntaxError` and whose message
/// mentions none of "Cannot find module", "Module not found" and "not found"
/// is classified as a runtime error that keeps the message, the file, the
/// stack and the error name exactly as given.
pub proof fn law_other_errors_are_runtime_errors(
    error_msg: String,
    file_path: String,
    stack: Option<String>,
    error_name: Option<String>,
)
    requires
        error_name matches Some(name) ==> !seq_contains(name@, "SyntaxError"@),
        !seq_contains(error_msg@, "Cannot find module"@),
        !seq_contains(error_msg@, "Module not found"@),
        !seq_contains(error_msg@, "not found"@),
    ensures
        classify_js_error(error_msg, file_path, stack, error_name) == (ModuleReloadError::RuntimeError {
            message: error_msg,
            file_path: file_path,
            stack: stack,
            error_name: error_name,
        }),
{
}

/// An error whose name does not mention `SyntaxError` but whose message says
/// a module was not found is classified as a missing module, with the message
/// and the file as given.
pub proof fn law_missing_modules_are_not_found(
    error_msg: String,
    file_path: String,
    stack: Option<String>,
    error_name: Option<String>,
)
    requires
        error_name matches Some(name) ==> !seq_contains(name@, "SyntaxError"@),
        seq_contains(error_msg@, "not found"@) || seq_contains(error_msg@, "Cannot find module"@)
            || seq_contains(error_msg@, "Module not found"@),
    ensures
        classify_js_error(error_msg, file_path, stack, error_name) == (ModuleReloadError::NotFound {
            message: error_msg,
            file_path: file_path,
        }),
{
}

/// An error whose name mentions `SyntaxError` is classified as a syntax error
/// that carries the message, the file, and the line and column its message
/// names, whatever the message says otherwise.
pub proof fn law_syntax_errors_carry_their_location(
    error_msg: String,
    file_path: String,
    stack: Option<String>,
    name: String,
)
    requires
        seq_contains(name@, "SyntaxError"@),
    ensures
        classify_js_error(error_msg, file_path, stack, Some(name)) == (ModuleReloadError::SyntaxError {
            message: error_msg,
            file_path: file_path,
            line: location_of(error_msg@).0,
            column: location_of(error_msg@).1,
        }),
{
}

/// When the first "line " of a message is followed by a numeric run that ends
/// before the text does and reads as `line`, that is the line reported,
/// whatever follows it.
pub proof fn law_labelled_line_is_reported(
    m: Seq<char>,
    p: int,
    after: Seq<char>,
    e: int,
    line: u32,
)
    requires
        occurs_at(m, "line "@, p),
        forall|j: int| 0 <= j < p ==> !occurs_at(m, "line "@, j),
        after == m.subrange(p + "line "@.len(), m.len() as int),
        0 <= e < after.len(),
        !is_numeric_char(after[e]),
        forall|k: int| 0 <= k < e ==> is_numeric_char(#[trigger] after[k]),
        parse_u32_spec(after.subrange(0, e)) == Some(line),
    ensures
        location_of(m).0 == Some(line),
{
    lemma_find_first_at(m, "line "@, p);
    lemma_first_non_numeric_at(after, e);
}

/// After a labelled line, the first "column " of what follows "line " gives
/// the column when its numeric run ends before the text does and parses.
pub proof fn law_labelled_column_is_reported(
    m: Seq<char>,
    p: int,
    after: Seq<char>,
    e: int,
    line: u32,
    c: int,
    rest: Seq<char>,
    f: int,
    column: u32,
)
    requires
        occurs_at(m, "line "@, p),
        forall|j: int| 0 <= j < p ==> !occurs_at(m, "line "@, j),
        after == m.subrange(p + "line "@.len(), m.len() as int),
        0 <= e < after.len(),
        !is_numeric_char(after[e]),
        forall|k: int| 0 <= k < e ==> is_numeric_char(#[trigger] after[k]),
        parse_u32_spec(after.subrange(0, e)) == Some(line),
        occurs_at(after, "column "@, c),
        forall|j: int| 0 <= j < c ==> !occurs_at(after, "column "@, j),
        rest == after.subrange(c + "column "@.len(), after.len() as int),
        0 <= f < rest.len(),
        !is_numeric_char(rest[f]),
        forall|k: int| 0 <= k < f ==> is_numeric_char(#[trigger] rest[k]),
        parse_u32_spec(rest.subrange(0, f)) == Some(column),
    ensures
        location_of(m) == (Some(line), Some(column)),
{
    lemma_find_first_at(m, "line "@, p);
    lemma_first_non_numeric_at(after, e);
    lemma_find_first_at(after, "column "@, c);
    lemma_first_non_numeric_at(rest, f);
}

/// After a labelled line with no "column " after it, the line is reported
/// without a column.
pub proof fn law_labelled_line_without_column_label(
    m: Seq<char>,
    p: int,
    after: Seq<char>,
    e: int,
    line: u32,
)
    requires
        occurs_at(m, "line "@, p),
        forall|j: int| 0 <= j < p ==> !occurs_at(m, "line "@, j),
        after == m.subrange(p + "line "@.len(), m.len() as int),
        0 <= e < after.len(),
        !is_numeric_char(after[e]),
        forall|k: int| 0 <= k < e ==> is_numeric_char(#[trigger] after[k]),
        parse_u32_spec(after.subrange(0, e)) == Some(line),
        forall|j: int| !occurs_at(after, "column "@, j),
    ensures
        location_of(m) == (Some(line), None::<u32>),
{
    lemma_find_first_at(m, "line "@, p);
    lemma_first_non_numeric_at(after, e);
    lemma_find_first_none(after, "column "@);
}

/// After a labelled line, a "column " whose numeric run reaches the end of
/// the text gives no column, and the line is still reported.
pub proof fn law_labelled_line_with_column_at_end(
    m: Seq<char>,
    p: int,
    after: Seq<char>,
    e: int,
    line: u32,
    c: int,
    rest: Seq<char>,
)
    requires
        occurs_at(m, "line "@, p),
        forall|j: int| 0 <= j < p ==> !occurs_at(m, "line "@, j),
        after == m.subrange(p + "line "@.len(), m.len() as int),
        0 <= e < after.len(),
        !is_numeric_char(after[e]),
        forall|k: int| 0 <= k < e ==> is_numeric_char(#[trigger] after[k]),
        parse_u32_spec(after.subrange(0, e)) == Some(line),
        occurs_at(after, "column "@, c),
        forall|j: int| 0 <= j < c ==> !occurs_at(after, "column "@, j),
        rest == after.subrange(c + "column "@.len(), after.len() as int),
        forall|k: int| 0 <= k < rest.len() ==> is_numeric_char(#[trigger] rest[k]),
    ensures
        location_of(m) == (Some(line), None::<u32>),
{
    lemma_find_first_at(m, "line "@, p);
    lemma_first_non_numeric_at(after, e);
    lemma_find_first_at(after, "column "@, c);
    lemma_first_non_numeric_none(rest);
}

/// After a labelled line, a "column " whose numeric run does not parse gives
/// no column, and the line is still reported.
pub proof fn law_labelled_line_with_unreadable_column(
    m: Seq<char>,
    p: int,
    after: Seq<char>,
    e: int,
    line: u32,
    c: int,
    rest: Seq<char>,
    f: int,
)
    requires
        occurs_at(m, "line "@, p),
        forall|j: int| 0 <= j < p ==> !occurs_at(m, "line "@, j),
        after == m.subrange(p + "line "@.len(), m.len() as int),
        0 <= e < after.len(),
        !is_numeric_char(after[e]),
        forall|k: int| 0 <= k < e ==> is_numeric_char(#[trigger] after[k]),
        parse_u32_spec(after.subrange(0, e)) == Some(line),
        occurs_at(after, "column "@, c),
        forall|j: int| 0 <= j < c ==> !occurs_at(after, "column "@, j),
        rest == after.subrange(c + "column "@.len(), after.len() as int),
        0 <= f < rest.len(),
        !is_numeric_char(rest[f]),
        forall|k: int| 0 <= k < f ==> is_numeric_char(#[trigger] rest[k]),
        parse_u32_spec(rest.subrange(0, f)) is None,
    ensures
        location_of(m) == (Some(line), None::<u32>),
{
    lemma_find_first_at(m, "line "@, p);
    lemma_first_non_numeric_at(after, e);
    lemma_find_first_at(after, "column "@, c);
    lemma_first_non_numeric_at(rest, f);
}

/// In a message without "line ", the text between the first two colons is
/// the line and the numeric run after the second colon, when it ends before
/// the text does, is the column, both as they parse.
pub proof fn law_colon_location_is_reported(
    m: Seq<char>,
    p: int,
    after: Seq<char>,
    q: int,
    line: u32,
    rest: Seq<char>,
    e: int,
    column: u32,
)
    requires
        forall|j: int| !occurs_at(m, "line "@, j),
        0 <= p < m.len(),
        m[p] == ':',
        forall|j: int| 0 <= j < p ==> m[j] != ':',
        after == m.subrange(p + 1, m.len() as int),
        0 <= q < after.len(),
        after[q] == ':',
        forall|j: int| 0 <= j < q ==> after[j] != ':',
        parse_u32_spec(after.subrange(0, q)) == Some(line),
        rest == after.subrange(q + 1, after.len() as int),
        0 <= e < rest.len(),
        !is_numeric_char(rest[e]),
        forall|k: int| 0 <= k < e ==> is_numeric_char(#[trigger] rest[k]),
        parse_u32_spec(rest.subrange(0, e)) == Some(column),
    ensures
        location_of(m) == (Some(line), Some(column)),
{
    lemma_find_first_none(m, "line "@);
    lemma_find_first_char(m, ':', p);
    lemma_find_first_char(after, ':', q);
    lemma_first_non_numeric_at(rest, e);
}

/// A message without "line " names no labelled location.
pub proof fn law_no_label_no_labelled_location(m: Seq<char>)
    requires
        forall|j: int| !occurs_at(m, "line "@, j),
    ensures
        labelled_location(m) is None,
{
    lemma_find_first_none(m, "line "@);
}

/// When the numeric run after the first "line " reaches the end of the text,
/// the message names no labelled location.
pub proof fn law_line_run_at_end_no_labelled_location(m: Seq<char>, p: int, after: Seq<char>)
    requires
        occurs_at(m, "line "@, p),
        forall|j: int| 0 <= j < p ==> !occurs_at(m, "line "@, j),
        after == m.subrange(p + "line "@.len(), m.len() as int),
        forall|k: int| 0 <= k < after.len() ==> is_numeric_char(#[trigger] after[k]),
    ensures
        labelled_location(m) is None,
{
    lemma_find_first_at(m, "line "@, p);
    lemma_first_non_numeric_none(after);
}

/// When the numeric run after the first "line " does not parse, the message
/// names no labelled location.
pub proof fn law_unreadable_line_no_labelled_location(m: Seq<char>, p: int, after: Seq<char>, e: int)
    requires
        occurs_at(m, "line "@, p),
        forall|j: int| 0 <= j < p ==> !occurs_at(m, "line "@, j),
        after == m.subrange(p + "line "@.len(), m.len() as int),
        0 <= e < after.len(),
        !is_numeric_char(after[e]),
        forall|k: int| 0 <= k < e ==> is_numeric_char(#[trigger] after[k]),
        parse_u32_spec(after.subrange(0, e)) is None,
    ensures
        labelled_location(m) is None,
{
    lemma_find_first_at(m, "line "@, p);
    lemma_first_non_numeric_at(after, e);
}

/// Where the message names no labelled location, the text between the first
/// two colons is the line and the numeric run after the second colon, when
/// it ends before the text does, is the column, both as they parse.
pub proof fn law_colon_location_after_failed_label(
    m: Seq<char>,
    p: int,
    after: Seq<char>,
    q: int,
    line: u32,
    rest: Seq<char>,
    e: int,
    column: u32,
)
    requires
        labelled_location(m) is None,
        0 <= p < m.len(),
        m[p] == ':',
        forall|j: int| 0 <= j < p ==> m[j] != ':',
        after == m.subrange(p + 1, m.len() as int),
        0 <= q < after.len(),
        after[q] == ':',
        forall|j: int| 0 <= j < q ==> after[j] != ':',
        parse_u32_spec(after.subrange(0, q)) == Some(line),
        rest == after.subrange(q + 1, after.len() as int),
        0 <= e < rest.len(),
        !is_numeric_char(rest[e]),
        forall|k: int| 0 <= k < e ==> is_numeric_char(#[trigger] rest[k]),
        parse_u32_spec(rest.subrange(0, e)) == Some(column),
    ensures
        location_of(m) == (Some(line), Some(column)),
{
    lemma_find_first_char(m, ':', p);
    lemma_find_first_char(after, ':', q);
    lemma_first_non_numeric_at(rest, e);
}

/// Where the message names no labelled location and has no second colon, it
/// names no location.
pub proof fn law_single_colon_no_location(m: Seq<char>, p: int, after: Seq<char>)
    requires
        labelled_location(m) is None,
        0 <= p < m.len(),
        m[p] == ':',
        forall|j: int| 0 <= j < p ==> m[j] != ':',
        after == m.subrange(p + 1, m.len() as int),
        forall|j: int| 0 <= j < after.len() ==> after[j] != ':',
    ensures
        location_of(m) == (None::<u32>, None::<u32>),
{
    lemma_find_first_char(m, ':', p);
    lemma_find_first_char_none(after, ':');
}

/// In the colon form, a line that does not parse means no location at all.
pub proof fn law_unreadable_colon_line_no_location(m: Seq<char>, p: int, after: Seq<char>, q: int)
    requires
        labelled_location(m) is None,
        0 <= p < m.len(),
        m[p] == ':',
        forall|j: int| 0 <= j < p ==> m[j] != ':',
        after == m.subrange(p + 1, m.len() as int),
        0 <= q < after.len(),
        after[q] == ':',
        forall|j: int| 0 <= j < q ==> after[j] != ':',
        parse_u32_spec(after.subrange(0, q)) is None,
    ensures
        location_of(m) == (None::<u32>, None::<u32>),
{
    lemma_find_first_char(m, ':', p);
    lemma_find_first_char(after, ':', q);
}

/// In the colon form, a column that is missing (its numeric run reaches the
/// end of the text) or does not parse drops the line too: no location at all.
pub proof fn law_unreadable_colon_column_no_location(
    m: Seq<char>,
    p: int,
    after: Seq<char>,
    q: int,
    line: u32,
    rest: Seq<char>,
)
    requires
        labelled_location(m) is None,
        0 <= p < m.len(),
        m[p] == ':',
        forall|j: int| 0 <= j < p ==> m[j] != ':',
        after == m.subrange(p + 1, m.len() as int),
        0 <= q < after.len(),
        after[q] == ':',
        forall|j: int| 0 <= j < q ==> after[j] != ':',
        parse_u32_spec(after.subrange(0, q)) == Some(line),
        rest == after.subrange(q + 1, after.len() as int),
        match first_non_numeric(rest) {
            None => true,
            Some(e) => parse_u32_spec(rest.subrange(0, e)) is None,
        },
    ensures
        location_of(m) == (None::<u32>, None::<u32>),
{
    lemma_find_first_char(m, ':', p);
    lemma_find_first_char(after, ':', q);
}

/// A message with neither "line " nor a colon names no location.
pub proof fn law_no_location_without_markers(m: Seq<char>)
    requires
        forall|j: int| !occurs_at(m, "line "@, j),
        forall|j: int| 0 <= j < m.len() ==> m[j] != ':',
    ensures
        location_of(m) == (None::<u32>, None::<u32>),
{
    lemma_find_first_none(m, "line "@);
    lemma_find_first_char_none(m, ':');
}

/// The report of a syntax error names the file, then the line (and the column
/// when there is a line), and always ends with ": " and the message.
pub proof fn law_syntax_error_report(
    message: String,
    file_path: String,
    line: Option<u32>,
    column: Option<u32>,
)
    ensures
        line is None ==> (ModuleReloadError::SyntaxError { message, file_path, line, column }).display_text()
            == "Syntax error in "@ + file_path@ + ": "@ + message@,
        line matches Some(l) ==> (column is None ==> (ModuleReloadError::SyntaxError {
            message,
            file_path,
            line,
            column,
        }).display_text() == "Syntax error in "@ + file_path@ + " at line "@ + decimal(l as nat)
            + ": "@ + message@),
        line matches Some(l) ==> (column matches Some(c) ==> (ModuleReloadError::SyntaxError {
            message,
            file_path,
            line,
            column,
        }).display_text() == "Syntax error in "@ + file_path@ + " at line "@ + decimal(l as nat)
            + ", column "@ + decimal(c as nat) + ": "@ + message@),
{
    let e = ModuleReloadError::SyntaxError { message, file_path, line, column };
    match line {
        None => {
            assert(e.display_text() =~= "Syntax error in "@ + file_path@ + ": "@ + message@);
        },
        Some(l) => match column {
            None => {
                assert(e.display_text() =~= "Syntax error in "@ + file_path@ + " at line "@
                    + decimal(l as nat) + ": "@ + message@);
            },
            Some(c) => {
                assert(e.display_text() =~= "Syntax error in "@ + file_path@ + " at line "@
                    + decimal(l as nat) + ", column "@ + decimal(c as nat) + ": "@ + message@);
            },
        },
    }
}

/// The reports of the other kinds of failure, each naming what it records.
pub proof fn law_other_reports(e: ModuleReloadError)
    ensures
        e matches ModuleReloadError::RuntimeError { message, file_path, error_name: Some(name), .. }
            ==> e.display_text() == name@ + " in "@ + file_path@ + ": "@ + message@,
        e matches ModuleReloadError::RuntimeError { message, file_path, error_name: None, .. }
            ==> e.display_text() == "Runtime error in "@ + file_path@ + ": "@ + message@,
        e matches ModuleReloadError::Timeout { file_path, timeout_ms, .. } ==> e.display_text()
            == "Module reload timed out after "@ + decimal(timeout_ms as nat) + "ms for "@
            + file_path@,
        e matches ModuleReloadError::NotFound { file_path, .. } ==> e.display_text()
            == "Module not found: "@ + file_path@,
        e matches ModuleReloadError::MaxRetriesExceeded { file_path, attempts, last_error: None, .. }
            ==> e.display_text() == "Module reload failed after "@ + decimal(attempts as nat)
            + " attempts for "@ + file_path@,
        e matches ModuleReloadError::MaxRetriesExceeded {
            file_path,
            attempts,
            last_error: Some(last),
            ..
        } ==> e.display_text() == "Module reload failed after "@ + decimal(attempts as nat)
            + " attempts for "@ + file_path@ + ". Last error: "@ + last@,
        e matches ModuleReloadError::HelpersNotInitialized { message } ==> e.display_text()
            == "Module reload helpers not initialized: "@ + message@,
        e matches ModuleReloadError::RuntimeNotAvailable { message } ==> e.display_text()
            == "JavaScript runtime not available: "@ + message@,
        e matches ModuleReloadError::Other { message, file_path: Some(path) } ==> e.display_text()
            == "Module reload error for "@ + path@ + ": "@ + message@,
        e matches ModuleReloadError::Other { message, file_path: None } ==> e.display_text()
            == "Module reload error: "@ + message@,
{
    match e {
        ModuleReloadError::MaxRetriesExceeded { file_path, attempts, last_error, .. } => {
            match last_error {
                Some(last) => {
                    assert(e.display_text() =~= "Module reload failed after "@ + decimal(
                        attempts as nat,
                    ) + " attempts for "@ + file_path@ + ". Last error: "@ + last@);
                },
                None => {
                    assert(e.display_text() =~= "Module reload failed after "@ + decimal(
                        attempts as nat,
                    ) + " attempts for "@ + file_path@);
                },
            }
        },
        _ => {},
    }
}

} // verus!
