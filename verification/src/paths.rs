//! File-system paths as the library carries them, and the std path queries it makes.
//!
//! `PathBuf` and `Path` are opaque to the verifier: the library holds them and hands
//! them to std. What std's path queries return is a function of the path alone, so each
//! query's result has a name below; nothing else is stated of a path's contents.

use vstd::prelude::*;

verus! {

#[verifier::external_type_specification]
#[verifier::external_body]
pub struct ExPathBuf(std::path::PathBuf);

#[verifier::external_type_specification]
#[verifier::external_body]
pub struct ExPath(std::path::Path);

/// The text `Path::display` shows for a path: the path, lossily converted to UTF-8.
pub uninterp spec fn display_text(p: &std::path::Path) -> Seq<char>;

/// The `Path` that `PathBuf::as_path` borrows from a buffer.
pub uninterp spec fn buf_path(p: &std::path::PathBuf) -> &std::path::Path;

/// The final component of a path as text, when `Path::file_name` finds one and it is
/// valid UTF-8.
pub uninterp spec fn file_name_text(p: &std::path::Path) -> Option<Seq<char>>;

/// The extension of a path as text, when `Path::extension` finds one and it is valid
/// UTF-8.
pub uninterp spec fn extension_text(p: &std::path::Path) -> Option<Seq<char>>;

/// The path a `PathBuf` holds.
///
/// Calls `PathBuf::as_path`, which borrows the buffer as a `Path`; the contract names
/// the result `buf_path` of the buffer.
#[verifier::external_body]
pub(crate) fn path_buf_as_path(p: &std::path::PathBuf) -> (r: &std::path::Path)
    ensures
        r == buf_path(p),
{
    p.as_path()
}

/// A printable form of a path.
///
/// Formats `Path::display`, which shows the path lossily converted to UTF-8; the
/// contract names the text `display_text` of the path and states nothing more of it.
#[verifier::external_body]
pub(crate) fn path_display(p: &std::path::Path) -> (r: String)
    ensures
        r@ == display_text(p),
{
    format!("{}", p.display())
}

/// The final component of a path as UTF-8, if there is one and it is valid UTF-8.
///
/// Calls `Path::file_name` and converts the component to `&str`; the contract names the
/// text `file_name_text` of the path and states nothing more of it.
#[verifier::external_body]
pub(crate) fn path_file_name(p: &std::path::Path) -> (r: Option<&str>)
    ensures
        file_name_text(p) == match r {
            Some(s) => Some(s@),
            None => None::<Seq<char>>,
        },
{
    match p.file_name() {
        Some(name) => name.to_str(),
        None => None,
    }
}

/// The extension of a path's final component as UTF-8, if there is one and it is valid
/// UTF-8.
///
/// Calls `Path::extension` and converts the extension to `&str`; the contract names the
/// text `extension_text` of the path and states nothing more of it.
#[verifier::external_body]
pub(crate) fn path_extension(p: &std::path::Path) -> (r: Option<&str>)
    ensures
        extension_text(p) == match r {
            Some(s) => Some(s@),
            None => None::<Seq<char>>,
        },
{
    match p.extension() {
        Some(ext) => ext.to_str(),
        None => None,
    }
}

} // verus!
