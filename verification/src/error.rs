//! The library's error type.
//!
//! Each variant carries what its message shows; `to_string` renders that message. The
//! I/O variant also keeps the underlying `std::io::Error`.

use crate::paths::{buf_path, display_text, path_buf_as_path, path_display};
use vstd::prelude::*;

verus! {

#[verifier::external_type_specification]
#[verifier::external_body]
pub struct ExIoError(std::io::Error);

/// The kinds of I/O failure the library tells apart.
#[derive(Debug, Clone, Copy, PartialEq, Eq, Structural)]
pub enum IoErrorKind {
    NotFound,
    PermissionDenied,
    InvalidInput,
    InvalidData,
    /// Any other kind.
    Other,
}

/// The kind `std::io::Error::kind` reports for an I/O error, with the kinds the library
/// does not name taken as `Other`.
pub uninterp spec fn io_kind_of(e: std::io::Error) -> IoErrorKind;

/// The kind of an I/O error.
///
/// Calls `std::io::Error::kind` and tells its variants apart; the kinds that the library
/// does not name become `Other`. The contract names the result `io_kind_of` of the error
/// and states nothing more of it.
#[verifier::external_body]
pub(crate) fn io_error_kind(e: &std::io::Error) -> (r: IoErrorKind)
    ensures
        r == io_kind_of(*e),
{
    match e.kind() {
        std::io::ErrorKind::NotFound => IoErrorKind::NotFound,
        std::io::ErrorKind::PermissionDenied => IoErrorKind::PermissionDenied,
        std::io::ErrorKind::InvalidInput => IoErrorKind::InvalidInput,
        std::io::ErrorKind::InvalidData => IoErrorKind::InvalidData,
        _ => IoErrorKind::Other,
    }
}

/// A new I/O error of the given kind carrying `message`.
///
/// Calls `std::io::Error::new`. Nothing is stated of the error value.
#[verifier::external_body]
pub(crate) fn io_error_new(kind: IoErrorKind, message: &str) -> std::io::Error {
    let kind = match kind {
        IoErrorKind::NotFound => std::io::ErrorKind::NotFound,
        IoErrorKind::PermissionDenied => std::io::ErrorKind::PermissionDenied,
        IoErrorKind::InvalidInput => std::io::ErrorKind::InvalidInput,
        IoErrorKind::InvalidData => std::io::ErrorKind::InvalidData,
        IoErrorKind::Other => std::io::ErrorKind::Other,
    };
    std::io::Error::new(kind, message.to_string())
}

/// An I/O error of kind `InvalidData` carrying a UTF-8 decoding error.
///
/// Calls `std::io::Error::new` with `ErrorKind::InvalidData` and the decoding error as
/// its payload. Nothing is stated of the error value.
#[verifier::external_body]
pub(crate) fn io_error_invalid_utf8(e: std::str::Utf8Error) -> std::io::Error {
    std::io::Error::new(std::io::ErrorKind::InvalidData, e)
}

/// Result of the library's fallible operations.
pub type Result<T> = std::result::Result<T, RllessError>;

/// Every way an operation of the viewer can fail.
#[derive(Debug)]
pub enum RllessError {
    /// File system failure, with the underlying I/O error.
    FileError { message: String, source: std::io::Error },
    /// The file does not exist.
    FileNotFound { path: std::path::PathBuf },
    /// The path exists but is not a regular file.
    NotAFile { path: std::path::PathBuf },
    /// The file cannot be read.
    PermissionDenied { path: std::path::PathBuf },
    /// Memory mapping failed.
    MemoryMappingError { message: String },
    /// Compression detection or decompression failed.
    CompressionError { message: String },
    /// A search failed.
    SearchError { message: String },
    /// The terminal interface failed.
    UIError { message: String },
    /// The configuration is wrong.
    ConfigError { message: String },
    /// A command-line argument is wrong.
    InvalidArgument { message: String },
    /// Anything else.
    Other { message: String },
}

/// The message prefix of each variant.
pub open spec fn message_prefix(e: RllessError) -> Seq<char> {
    match e {
        RllessError::FileError { .. } => "File operation failed: "@,
        RllessError::FileNotFound { .. } => "File not found: "@,
        RllessError::NotAFile { .. } => "Path is not a regular file: "@,
        RllessError::PermissionDenied { .. } => "Permission denied accessing file: "@,
        RllessError::MemoryMappingError { .. } => "Memory mapping failed: "@,
        RllessError::CompressionError { .. } => "Compression error: "@,
        RllessError::SearchError { .. } => "Search operation failed: "@,
        RllessError::UIError { .. } => "UI operation failed: "@,
        RllessError::ConfigError { .. } => "Configuration error: "@,
        RllessError::InvalidArgument { .. } => "Invalid argument: "@,
        RllessError::Other { .. } => "Operation failed: "@,
    }
}

/// The message text a variant carries, for the variants that carry one.
pub open spec fn carried_message(e: RllessError) -> Option<Seq<char>> {
    match e {
        RllessError::FileError { message, .. } => Some(message@),
        RllessError::MemoryMappingError { message } => Some(message@),
        RllessError::CompressionError { message } => Some(message@),
        RllessError::SearchError { message } => Some(message@),
        RllessError::UIError { message } => Some(message@),
        RllessError::ConfigError { message } => Some(message@),
        RllessError::InvalidArgument { message } => Some(message@),
        RllessError::Other { message } => Some(message@),
        _ => None,
    }
}

/// What follows the prefix in the message of `e`: the carried message, or for the path
/// variants the path as `Path::display` shows it.
pub open spec fn message_detail(e: RllessError) -> Seq<char> {
    match e {
        RllessError::FileNotFound { path } => display_text(buf_path(&path)),
        RllessError::NotAFile { path } => display_text(buf_path(&path)),
        RllessError::PermissionDenied { path } => display_text(buf_path(&path)),
        _ => carried_message(e).unwrap(),
    }
}

/// `text` is the message of `e`: the variant's prefix followed by the carried message;
/// for the path variants, the prefix followed by the displayed path.
pub open spec fn renders_as(e: RllessError, text: Seq<char>) -> bool {
    text == message_prefix(e) + message_detail(e)
}

/// The message an I/O error of each kind gets when converted.
pub open spec fn io_kind_message(kind: IoErrorKind) -> Seq<char> {
    match kind {
        IoErrorKind::NotFound => "File not found"@,
        IoErrorKind::PermissionDenied => "Permission denied"@,
        _ => "IO operation failed"@,
    }
}

impl RllessError {
    /// An I/O failure with context.
    pub fn file_error(message: &str, source: std::io::Error) -> (r: Self)
        ensures
            r matches RllessError::FileError { message: m, source: s } && m@ == message@ && s
                == source,
    {
        RllessError::FileError { message: message.to_owned(), source }
    }

    /// A memory mapping failure.
    pub fn memory_mapping(message: &str) -> (r: Self)
        ensures
            r matches RllessError::MemoryMappingError { message: m } && m@ == message@,
    {
        RllessError::MemoryMappingError { message: message.to_owned() }
    }

    /// A compression failure.
    pub fn compression(message: &str) -> (r: Self)
        ensures
            r matches RllessError::CompressionError { message: m } && m@ == message@,
    {
        RllessError::CompressionError { message: message.to_owned() }
    }

    /// A search failure.
    pub fn search(message: &str) -> (r: Self)
        ensures
            r matches RllessError::SearchError { message: m } && m@ == message@,
    {
        RllessError::SearchError { message: message.to_owned() }
    }

    /// A terminal interface failure.
    pub fn ui(message: &str) -> (r: Self)
        ensures
            r matches RllessError::UIError { message: m } && m@ == message@,
    {
        RllessError::UIError { message: message.to_owned() }
    }

    /// Any other failure.
    pub fn other(message: &str) -> (r: Self)
        ensures
            r matches RllessError::Other { message: m } && m@ == message@,
    {
        RllessError::Other { message: message.to_owned() }
    }

    /// The error converted from an I/O error whose kind is `kind`.
    pub fn from_io_kind(kind: IoErrorKind, source: std::io::Error) -> (r: Self)
        ensures
            r matches RllessError::FileError { message: m, source: s } && m@ == io_kind_message(
                kind,
            ) && s == source,
    {
        let message = match kind {
            IoErrorKind::NotFound => "File not found",
            IoErrorKind::PermissionDenied => "Permission denied",
            _ => "IO operation failed",
        };
        proof {
            reveal_strlit("File not found");
            reveal_strlit("Permission denied");
            reveal_strlit("IO operation failed");
        }
        RllessError::FileError { message: message.to_owned(), source }
    }

    /// The message of the error: the variant's prefix followed by the carried message,
    /// or by the path for the path variants.
    pub fn to_string(&self) -> (r: String)
        ensures
            renders_as(*self, r@),
    {
        let (prefix, detail): (&str, String) = match self {
            RllessError::FileError { message, .. } => ("File operation failed: ", message.clone()),
            RllessError::FileNotFound { path } => (
                "File not found: ",
                path_display(path_buf_as_path(path)),
            ),
            RllessError::NotAFile { path } => (
                "Path is not a regular file: ",
                path_display(path_buf_as_path(path)),
            ),
            RllessError::PermissionDenied { path } => (
                "Permission denied accessing file: ",
                path_display(path_buf_as_path(path)),
            ),
            RllessError::MemoryMappingError { message } => (
                "Memory mapping failed: ",
                message.clone(),
            ),
            RllessError::CompressionError { message } => ("Compression error: ", message.clone()),
            RllessError::SearchError { message } => (
                "Search operation failed: ",
                message.clone(),
            ),
            RllessError::UIError { message } => ("UI operation failed: ", message.clone()),
            RllessError::ConfigError { message } => ("Configuration error: ", message.clone()),
            RllessError::InvalidArgument { message } => ("Invalid argument: ", message.clone()),
            RllessError::Other { message } => ("Operation failed: ", message.clone()),
        };
        proof {
            reveal_strlit("File operation failed: ");
            reveal_strlit("File not found: ");
            reveal_strlit("Path is not a regular file: ");
            reveal_strlit("Permission denied accessing file: ");
            reveal_strlit("Memory mapping failed: ");
            reveal_strlit("Compression error: ");
            reveal_strlit("Search operation failed: ");
            reveal_strlit("UI operation failed: ");
            reveal_strlit("Configuration error: ");
            reveal_strlit("Invalid argument: ");
            reveal_strlit("Operation failed: ");
        }
        let mut out = prefix.to_owned();
        out.append(detail.as_str());
        assert(out@ == message_prefix(*self) + detail@);
        out
    }
}

impl From<std::io::Error> for RllessError {
    /// An I/O error becomes a `FileError` whose message names its kind.
    fn from(err: std::io::Error) -> (r: Self)
        ensures
            r is FileError,
            r matches RllessError::FileError { message: m, source: s } && m@ == io_kind_message(
                io_kind_of(err),
            ) && s == err,
    {
        let kind = io_error_kind(&err);
        let r = Self::from_io_kind(kind, err);
        proof {
            reveal_strlit("File not found");
            reveal_strlit("Permission denied");
            reveal_strlit("IO operation failed");
        }
        r
    }
}

impl vstd::std_specs::convert::FromSpecImpl<std::io::Error> for RllessError {
    open spec fn obeys_from_spec() -> bool {
        false
    }

    open spec fn from_spec(v: std::io::Error) -> Self {
        RllessError::Other { message: arbitrary() }
    }
}

} // verus!
