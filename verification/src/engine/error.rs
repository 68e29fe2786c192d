//! Error types for demoji
//!
//! Structured errors with user-friendly messages and helpful suggestions.
use vstd::prelude::*;

use vstd::string::StringExecFns;

use super::replacer::option_str;
use super::text::{joined, line_and_column, position_at, utf8_len};

verus! {

broadcast use vstd::string::group_string_axioms;

/// `std::io::Error`, carried as the cause of some errors.
#[verifier::external_type_specification]
#[verifier::external_body]
pub struct ExIoError(std::io::Error);

/// Custom error type for demoji operations
#[derive(Debug)]
pub enum DemojiError {
    /// Permission denied error with helpful suggestion
    PermissionDenied { path: String, source: std::io::Error },
    /// File not found error
    FileNotFound { path: String },
    /// File encoding error (non-UTF-8)
    EncodingError { path: String },
    /// Configuration parsing error with optional line/column info; `source` describes the cause
    ConfigParseError { path: String, source: String, line: Option<usize>, column: Option<usize> },
    /// Invalid replacement mode
    InvalidMode { mode: String },
    /// Invalid path (doesn't exist or is invalid)
    InvalidPath { path: String },
    /// Generic IO error
    IoError { message: String, source: std::io::Error },
    /// Directory walking error
    WalkError { message: String },
    /// Configuration not found (non-fatal)
    ConfigNotFound,
    /// Generic error with context
    Other { message: String },
}

/// The kinds of I/O failure that are reported differently.
#[derive(Debug, Clone, Copy, PartialEq, Eq, Structural)]
pub enum IoFailureKind {
    /// The operation lacked the necessary privileges.
    PermissionDenied,
    /// An entity was not found.
    NotFound,
    /// Any other failure.
    Other,
}

/// The suggestion shown with an error.
pub open spec fn suggestion_text(e: DemojiError) -> Option<Seq<char>> {
    match e {
        DemojiError::PermissionDenied { .. } => Some(
            "Try running with elevated privileges (sudo) or check file permissions with 'ls -la'"@,
        ),
        DemojiError::EncodingError { .. } => Some(
            "The file contains non-UTF-8 characters. Try converting it to UTF-8 or excluding it from processing."@,
        ),
        DemojiError::FileNotFound { .. } => Some(
            "Check that the path exists and is spelled correctly."@,
        ),
        DemojiError::ConfigParseError { .. } => Some(
            "Check the TOML syntax in your .demoji.toml file. Use 'demoji init' to generate a valid template."@,
        ),
        DemojiError::InvalidMode { .. } => Some(
            "Valid modes are: 'smart' (default), 'remove' (delete all emojis), 'replace' (ASCII alternatives), or 'placeholder' (custom text)."@,
        ),
        DemojiError::InvalidPath { .. } => Some("Verify the path exists and is accessible."@),
        DemojiError::IoError { .. } => Some("Check file permissions and disk space."@),
        DemojiError::WalkError { .. } => Some(
            "Check that the directory exists and is accessible."@,
        ),
        DemojiError::ConfigNotFound => Some(
            "Run 'demoji init' to create a configuration file, or use CLI flags to configure behavior."@,
        ),
        DemojiError::Other { .. } => None,
    }
}

/// The one-line description of an error.
pub open spec fn message_text(e: DemojiError) -> Seq<char> {
    match e {
        DemojiError::PermissionDenied { path, .. } => "Permission denied: "@ + path@,
        DemojiError::FileNotFound { path } => "File not found: "@ + path@,
        DemojiError::EncodingError { path } => "File encoding error: "@ + path@
            + " is not valid UTF-8"@,
        DemojiError::ConfigParseError { path, .. } => "Configuration parsing error in "@ + path@,
        DemojiError::InvalidMode { mode } => "Invalid replacement mode: "@ + mode@
            + ". Use 'smart', 'remove', 'replace', or 'placeholder'"@,
        DemojiError::InvalidPath { path } => "Invalid path: "@ + path@,
        DemojiError::IoError { message, .. } => "IO error: "@ + message@,
        DemojiError::WalkError { message } => "Error walking directory: "@ + message@,
        DemojiError::ConfigNotFound => "Configuration file not found"@,
        DemojiError::Other { message } => message@,
    }
}

/// The message shown to the user: the description, then the suggestion when there is one.
pub open spec fn user_message_text(e: DemojiError) -> Seq<char> {
    match suggestion_text(e) {
        Some(s) => "Error: "@ + message_text(e) + "\n"@ + "Suggestion: "@ + s,
        None => "Error: "@ + message_text(e),
    }
}

/// Where in `contents` the fault at byte `span_start` lies, as a 1-based line and byte
/// column; none when no offset is reported or it falls inside a character.
pub open spec fn fault_position(contents: Seq<char>, span_start: Option<usize>) -> Option<(nat, nat)> {
    match span_start {
        Some(offset) => position_at(contents, offset as int),
        None => None,
    }
}

impl DemojiError {
    /// Returns a user-friendly suggestion for fixing this error
    pub fn suggestion(&self) -> (r: Option<&'static str>)
        ensures
            option_str(r) == suggestion_text(*self),
    {
        match self {
            DemojiError::PermissionDenied { .. } => Some(
                "Try running with elevated privileges (sudo) or check file permissions with 'ls -la'",
            ),
            DemojiError::EncodingError { .. } => Some(
                "The file contains non-UTF-8 characters. Try converting it to UTF-8 or excluding it from processing.",
            ),
            DemojiError::FileNotFound { .. } => Some(
                "Check that the path exists and is spelled correctly.",
            ),
            DemojiError::ConfigParseError { .. } => Some(
                "Check the TOML syntax in your .demoji.toml file. Use 'demoji init' to generate a valid template.",
            ),
            DemojiError::InvalidMode { .. } => Some(
                "Valid modes are: 'smart' (default), 'remove' (delete all emojis), 'replace' (ASCII alternatives), or 'placeholder' (custom text).",
            ),
            DemojiError::InvalidPath { .. } => Some("Verify the path exists and is accessible."),
            DemojiError::IoError { .. } => Some("Check file permissions and disk space."),
            DemojiError::WalkError { .. } => Some(
                "Check that the directory exists and is accessible.",
            ),
            DemojiError::ConfigNotFound => Some(
                "Run 'demoji init' to create a configuration file, or use CLI flags to configure behavior.",
            ),
            DemojiError::Other { .. } => None,
        }
    }

    /// The one-line description of this error
    pub fn message(&self) -> (s: String)
        ensures
            s@ == message_text(*self),
    {
        match self {
            DemojiError::PermissionDenied { path, .. } => joined("Permission denied: ", path.as_str()),
            DemojiError::FileNotFound { path } => joined("File not found: ", path.as_str()),
            DemojiError::EncodingError { path } => {
                let mut s = joined("File encoding error: ", path.as_str());
                s.append(" is not valid UTF-8");
                s
            },
            DemojiError::ConfigParseError { path, .. } => joined(
                "Configuration parsing error in ",
                path.as_str(),
            ),
            DemojiError::InvalidMode { mode } => {
                let mut s = joined("Invalid replacement mode: ", mode.as_str());
                s.append(". Use 'smart', 'remove', 'replace', or 'placeholder'");
                s
            },
            DemojiError::InvalidPath { path } => joined("Invalid path: ", path.as_str()),
            DemojiError::IoError { message, .. } => joined("IO error: ", message.as_str()),
            DemojiError::WalkError { message } => joined(
                "Error walking directory: ",
                message.as_str(),
            ),
            DemojiError::ConfigNotFound => "Configuration file not found".to_string(),
            DemojiError::Other { message } => message.as_str().to_string(),
        }
    }

    /// Formats the error with suggestion for display to user
    pub fn user_message(&self) -> (s: String)
        ensures
            s@ == user_message_text(*self),
    {
        let mut msg = joined("Error: ", self.message().as_str());
        if let Some(suggestion) = self.suggestion() {
            msg.append("\n");
            msg.append("Suggestion: ");
            msg.append(suggestion);
        }
        msg
    }

    /// The error for an I/O failure of the given kind on `path`: permission and not-found
    /// failures name the path, others carry `message`.
    pub fn from_io_failure(
        kind: IoFailureKind,
        path: String,
        message: String,
        source: std::io::Error,
    ) -> (e: DemojiError)
        ensures
            match kind {
                IoFailureKind::PermissionDenied => e == DemojiError::PermissionDenied { path, source },
                IoFailureKind::NotFound => e == DemojiError::FileNotFound { path },
                IoFailureKind::Other => e == DemojiError::IoError { message, source },
            },
    {
        match kind {
            IoFailureKind::PermissionDenied => DemojiError::PermissionDenied { path, source },
            IoFailureKind::NotFound => DemojiError::FileNotFound { path },
            IoFailureKind::Other => DemojiError::IoError { message, source },
        }
    }

    /// The error for the configuration file `path`, whose text `contents` failed to parse
    /// for the reason `cause`. When the parser reports the byte `span_start` at which the
    /// fault lies, the error gives its 1-based line and byte column.
    pub fn config_parse_error(
        path: String,
        cause: String,
        contents: &str,
        span_start: Option<usize>,
    ) -> (e: DemojiError)
        requires
            utf8_len(contents@) < usize::MAX,
        ensures
            e == (DemojiError::ConfigParseError {
                path,
                source: cause,
                line: match fault_position(contents@, span_start) {
                    Some((l, _)) => Some(l as usize),
                    None => None,
                },
                column: match fault_position(contents@, span_start) {
                    Some((_, c)) => Some(c as usize),
                    None => None,
                },
            }),
    {
        let position = match span_start {
            Some(offset) => line_and_column(contents, offset),
            None => None,
        };
        match position {
            Some((line, column)) => DemojiError::ConfigParseError {
                path,
                source: cause,
                line: Some(line),
                column: Some(column),
            },
            None => DemojiError::ConfigParseError { path, source: cause, line: None, column: None },
        }
    }

    /// The error for an I/O failure `source` on `path`, classified by the kind that the
    /// failure reports: permission and not-found failures name the path, others carry
    /// `message`; the failure is kept as the cause.
    pub fn from_io_error(source: std::io::Error, path: String, message: String) -> (e:
        DemojiError)
        ensures
            io_error_kind(source) == IoFailureKind::PermissionDenied ==> e == (
            DemojiError::PermissionDenied { path, source }),
            io_error_kind(source) == IoFailureKind::NotFound ==> e == (DemojiError::FileNotFound {
                path,
            }),
            io_error_kind(source) == IoFailureKind::Other ==> e == (DemojiError::IoError {
                message,
                source,
            }),
    {
        let kind = io_failure_kind(&source);
        DemojiError::from_io_failure(kind, path, message, source)
    }
}

/// Which of the kinds that are reported differently `std::io::Error::kind` gives for `err`:
/// its documented kind, which depends on the error alone.
pub uninterp spec fn io_error_kind(err: std::io::Error) -> IoFailureKind;

/// `std::io::Error::kind`, sorted into the kinds that are reported differently: permission
/// denied, not found, and all others.
#[verifier::external_body]
fn io_failure_kind(err: &std::io::Error) -> (k: IoFailureKind)
    ensures
        k == io_error_kind(*err),
{
    match err.kind() {
        std::io::ErrorKind::PermissionDenied => IoFailureKind::PermissionDenied,
        std::io::ErrorKind::NotFound => IoFailureKind::NotFound,
        _ => IoFailureKind::Other,
    }
}

/// The conversion from an I/O error also depends on the error's text, which is known only
/// through its `Display` impl, so it is not stated as a spec function of its argument;
/// `from` below states the variant by the error's kind and ties the message to the text.
impl vstd::std_specs::convert::FromSpecImpl<std::io::Error> for DemojiError {
    open spec fn obeys_from_spec() -> bool {
        false
    }

    open spec fn from_spec(v: std::io::Error) -> Self {
        vstd::pervasive::arbitrary()
    }
}

/// Convert from io::Error to DemojiError
impl From<std::io::Error> for DemojiError {
    fn from(err: std::io::Error) -> (e: Self)
        ensures
            io_error_kind(err) == IoFailureKind::PermissionDenied ==> (e matches DemojiError::PermissionDenied {
                path,
                source,
            } && path@ == "<unknown>"@ && source == err),
            io_error_kind(err) == IoFailureKind::NotFound ==> (e matches DemojiError::FileNotFound {
                path,
            } && path@ == "<unknown>"@),
            io_error_kind(err) == IoFailureKind::Other ==> (e matches DemojiError::IoError {
                message,
                source,
            } && source == err && vstd::string::to_string_from_display_ensures::<std::io::Error>(
                &err,
                message,
            )),
    {
        let message = err.to_string();
        DemojiError::from_io_error(err, "<unknown>".to_string(), message)
    }
}

/// Every error but the generic one comes with a suggestion.
pub proof fn lemma_suggestion_unless_generic(e: DemojiError)
    ensures
        suggestion_text(e) is None <==> e is Other,
{
}

/// The user message starts with `Error: ` and the description, and ends with the
/// suggestion when there is one.
pub proof fn lemma_user_message_shape(e: DemojiError)
    ensures
        user_message_text(e).take(7) == "Error: "@,
        user_message_text(e).subrange(7, 7 + message_text(e).len() as int) == message_text(e),
        suggestion_text(e) matches Some(s) ==> user_message_text(e).skip(
            user_message_text(e).len() - s.len(),
        ) == s,
{
    reveal_strlit("Error: ");
    reveal_strlit("\n");
    reveal_strlit("Suggestion: ");
    let head = "Error: "@ + message_text(e);
    assert(head.take(7) =~= "Error: "@);
    assert(head.subrange(7, 7 + message_text(e).len() as int) =~= message_text(e));
    match suggestion_text(e) {
        Some(s) => {
            let m = head + "\n"@ + "Suggestion: "@ + s;
            assert(m.take(7) =~= head.take(7));
            assert(m.subrange(7, 7 + message_text(e).len() as int) =~= head.subrange(
                7,
                7 + message_text(e).len() as int,
            ));
            assert(m.skip(m.len() - s.len()) =~= s);
        },
        None => {},
    }
}

} // verus!
