//! The errors of the engine.

use vstd::prelude::*;
use vstd::string::*;
use vstd::std_specs::convert::FromSpecImpl;

verus! {

/// What went wrong, without the message.
#[derive(Debug, Clone, Copy, PartialEq, Eq, Structural)]
pub enum ErrorKind {
    FileNotFound,
    UnsupportedFormat,
    ProcessingError,
    CliError,
    ConfigError,
    SystemError,
    IoError,
    SerializationError,
}

/// An error of the engine: a kind and a message for the user.
#[derive(Debug)]
pub enum AppError {
    FileNotFound(String),
    UnsupportedFormat(String),
    ProcessingError(String),
    CliError(String),
    ConfigError(String),
    SystemError(String),
    IoError(String),
    SerializationError(String),
}

pub type AppResult<T> = Result<T, AppError>;

/// `std::io::Error`, as a value that is carried through.
#[verifier::external_type_specification]
#[verifier::external_body]
pub struct ExIoError(std::io::Error);

/// Calls `to_string` of `std::io::Error`: the error's own text. For an error
/// of the operating system the text comes from the system's table of
/// messages, so nothing is claimed of it.
#[verifier::external_body]
fn io_error_message(e: &std::io::Error) -> (s: String) {
    e.to_string()
}

/// `serde_json::Error`, as a value that is carried through.
#[verifier::external_type_specification]
#[verifier::external_body]
pub struct ExJsonError(serde_json::Error);

/// The text that `serde_json::Error` shows for itself.
pub uninterp spec fn json_error_string(e: serde_json::Error) -> String;

/// The text that `serde_json::Error` shows for itself, as a sequence of
/// characters.
pub open spec fn json_error_text(e: serde_json::Error) -> Seq<char> {
    json_error_string(e)@
}

/// Calls `to_string` of `serde_json::Error`: the result is the error's own
/// text.
#[verifier::external_body]
fn json_error_message(e: &serde_json::Error) -> (s: String)
    ensures
        s == json_error_string(*e),
{
    e.to_string()
}

impl View for AppError {
    type V = (ErrorKind, Seq<char>);

    open spec fn view(&self) -> (ErrorKind, Seq<char>) {
        match self {
            AppError::FileNotFound(m) => (ErrorKind::FileNotFound, m@),
            AppError::UnsupportedFormat(m) => (ErrorKind::UnsupportedFormat, m@),
            AppError::ProcessingError(m) => (ErrorKind::ProcessingError, m@),
            AppError::CliError(m) => (ErrorKind::CliError, m@),
            AppError::ConfigError(m) => (ErrorKind::ConfigError, m@),
            AppError::SystemError(m) => (ErrorKind::SystemError, m@),
            AppError::IoError(m) => (ErrorKind::IoError, m@),
            AppError::SerializationError(m) => (ErrorKind::SerializationError, m@),
        }
    }
}

/// The words that stand before the message when an error of this kind is shown.
pub open spec fn display_prefix(kind: ErrorKind) -> Seq<char> {
    match kind {
        ErrorKind::FileNotFound => "File not found: "@,
        ErrorKind::UnsupportedFormat => "Unsupported file format: "@,
        ErrorKind::ProcessingError => "Processing failed: "@,
        ErrorKind::CliError => "CLI execution failed: "@,
        ErrorKind::ConfigError => "Configuration error: "@,
        ErrorKind::SystemError => "System error: "@,
        ErrorKind::IoError => "IO error: "@,
        ErrorKind::SerializationError => "Serialization error: "@,
    }
}

/// A result with its value and its error as the contracts speak of them.
pub open spec fn outcome<T: View>(r: AppResult<T>) -> Result<T::V, (ErrorKind, Seq<char>)> {
    match r {
        Ok(v) => Ok(v@),
        Err(e) => Err(e@),
    }
}

impl AppError {
    pub fn kind(&self) -> (k: ErrorKind)
        ensures
            k == self@.0,
    {
        match self {
            AppError::FileNotFound(_) => ErrorKind::FileNotFound,
            AppError::UnsupportedFormat(_) => ErrorKind::UnsupportedFormat,
            AppError::ProcessingError(_) => ErrorKind::ProcessingError,
            AppError::CliError(_) => ErrorKind::CliError,
            AppError::ConfigError(_) => ErrorKind::ConfigError,
            AppError::SystemError(_) => ErrorKind::SystemError,
            AppError::IoError(_) => ErrorKind::IoError,
            AppError::SerializationError(_) => ErrorKind::SerializationError,
        }
    }

    pub fn message(&self) -> (m: &String)
        ensures
            m@ == self@.1,
    {
        match self {
            AppError::FileNotFound(m) => m,
            AppError::UnsupportedFormat(m) => m,
            AppError::ProcessingError(m) => m,
            AppError::CliError(m) => m,
            AppError::ConfigError(m) => m,
            AppError::SystemError(m) => m,
            AppError::IoError(m) => m,
            AppError::SerializationError(m) => m,
        }
    }

    /// The error as the user reads it: the words for its kind, then the message.
    pub fn to_string(&self) -> (s: String)
        ensures
            s@ == display_prefix(self@.0) + self@.1,
    {
        let prefix = match self {
            AppError::FileNotFound(_) => "File not found: ",
            AppError::UnsupportedFormat(_) => "Unsupported file format: ",
            AppError::ProcessingError(_) => "Processing failed: ",
            AppError::CliError(_) => "CLI execution failed: ",
            AppError::ConfigError(_) => "Configuration error: ",
            AppError::SystemError(_) => "System error: ",
            AppError::IoError(_) => "IO error: ",
            AppError::SerializationError(_) => "Serialization error: ",
        };
        String::from_str(prefix).concat(self.message().as_str())
    }

    /// An I/O error as an error of the engine: its kind is `IoError`, its
    /// message the text that the error shows for itself.
    pub fn from_io(error: &std::io::Error) -> (r: AppError)
        ensures
            r@.0 == ErrorKind::IoError,
    {
        AppError::io_failure(io_error_message(error))
    }

    /// An error of kind `IoError` with the given message.
    pub fn io_failure(message: String) -> (r: AppError)
        ensures
            r@ == (ErrorKind::IoError, message@),
    {
        AppError::IoError(message)
    }

    /// An error of reading or writing JSON as an error of the engine: its
    /// kind is `SerializationError`, its message the error's own text.
    pub fn from_json(error: &serde_json::Error) -> (r: AppError)
        ensures
            r@ == (ErrorKind::SerializationError, json_error_text(*error)),
    {
        AppError::SerializationError(json_error_message(error))
    }
}

impl Clone for AppError {
    fn clone(&self) -> (r: AppError)
        ensures
            r@ == self@,
    {
        match self {
            AppError::FileNotFound(m) => AppError::FileNotFound(m.clone()),
            AppError::UnsupportedFormat(m) => AppError::UnsupportedFormat(m.clone()),
            AppError::ProcessingError(m) => AppError::ProcessingError(m.clone()),
            AppError::CliError(m) => AppError::CliError(m.clone()),
            AppError::ConfigError(m) => AppError::ConfigError(m.clone()),
            AppError::SystemError(m) => AppError::SystemError(m.clone()),
            AppError::IoError(m) => AppError::IoError(m.clone()),
            AppError::SerializationError(m) => AppError::SerializationError(m.clone()),
        }
    }
}

impl From<std::io::Error> for AppError {
    /// An I/O error becomes what `from_io` makes of it.
    fn from(error: std::io::Error) -> (r: AppError)
        ensures
            r@.0 == ErrorKind::IoError,
    {
        AppError::from_io(&error)
    }
}

impl FromSpecImpl<std::io::Error> for AppError {
    /// The message of the result is the text that the error shows for
    /// itself, which no specification gives: no value is promised here, and
    /// the conversion itself states the kind.
    open spec fn obeys_from_spec() -> bool {
        false
    }

    open spec fn from_spec(error: std::io::Error) -> AppError {
        arbitrary()
    }
}


impl From<serde_json::Error> for AppError {
    fn from(error: serde_json::Error) -> (r: AppError) {
        AppError::SerializationError(json_error_message(&error))
    }
}

impl FromSpecImpl<serde_json::Error> for AppError {
    open spec fn obeys_from_spec() -> bool {
        true
    }

    /// An error of reading or writing JSON becomes an error of kind
    /// `SerializationError` with the error's own text as its message.
    open spec fn from_spec(error: serde_json::Error) -> AppError {
        AppError::SerializationError(json_error_string(error))
    }
}

} // verus!
