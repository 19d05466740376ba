//! The checks a file must pass before the viewer opens it.
//!
//! The file system is asked by the caller; these functions decide on its answers.

use crate::error::{io_error_new, IoErrorKind, Result, RllessError};
use crate::paths::{display_text, path_display};
use crate::text::{decimal_text, has_prefix, lemma_has_prefix_concat, owned, u64_to_decimal};
use vstd::prelude::*;

verus! {

/// One gibibyte.
pub const GIB: u64 = 1073741824u64;

/// Files larger than this (100 GiB) are refused as unlikely to be logs.
pub const MAX_REASONABLE_SIZE: u64 = 107374182400u64;

/// What the file system reports of an existing path.
#[derive(Debug, Clone, Copy, PartialEq, Eq, Structural)]
pub struct FileFacts {
    /// The path is a regular file, once symbolic links are followed.
    pub is_file: bool,
    /// The path itself is a symbolic link.
    pub is_symlink: bool,
    /// Its size in bytes.
    pub size: u64,
}

/// The start of the message a path is refused with, or `None` when it passes: a missing
/// path, something other than a regular file (a directory or a symbolic link among
/// them), an empty file and a file over `MAX_REASONABLE_SIZE` are refused, in that
/// order.
pub open spec fn refusal_prefix(facts: Option<FileFacts>) -> Option<Seq<char>> {
    match facts {
        None => Some("File does not exist: "@),
        Some(f) => if !f.is_file || f.is_symlink {
            Some("Path is not a file: "@)
        } else if f.size == 0 {
            Some("File is empty: "@)
        } else if f.size > MAX_REASONABLE_SIZE {
            Some("File is suspiciously large ("@ + decimal_text((f.size / GIB) as nat) + "GB): "@)
        } else {
            None
        },
    }
}

/// Decide whether `path` may be opened, given what the file system reports of it
/// (`None` when it does not exist). A refusal is a file error whose message is the
/// refusal's prefix followed by the displayed path.
pub fn check_file_facts(path: &std::path::Path, facts: Option<FileFacts>) -> (r: Result<()>)
    ensures
        match refusal_prefix(facts) {
            None => r is Ok,
            Some(prefix) => r matches Err(RllessError::FileError { message, .. }) && message@
                == prefix + display_text(path) && has_prefix(message@, prefix),
        },
{
    proof {
        reveal_strlit("File does not exist: ");
        reveal_strlit("Path is not a file: ");
        reveal_strlit("File is empty: ");
        reveal_strlit("File is suspiciously large (");
        reveal_strlit("GB): ");
    }
    let (mut message, kind, detail) = match facts {
        None => (owned("File does not exist: "), IoErrorKind::NotFound, "File not found"),
        Some(f) => {
            if !f.is_file || f.is_symlink {
                (owned("Path is not a file: "), IoErrorKind::InvalidInput, "Not a file")
            } else if f.size == 0 {
                (owned("File is empty: "), IoErrorKind::InvalidData, "Empty file")
            } else if f.size > MAX_REASONABLE_SIZE {
                let mut m = owned("File is suspiciously large (");
                let gib = u64_to_decimal(f.size / GIB);
                m.append(gib.as_str());
                m.append("GB): ");
                assert(m@ == "File is suspiciously large ("@ + decimal_text((f.size / GIB) as nat)
                    + "GB): "@);
                (m, IoErrorKind::InvalidData, "File too large")
            } else {
                return Ok(());
            }
        },
    };
    let ghost prefix = message@;
    assert(refusal_prefix(facts) == Some(prefix));
    let shown = path_display(path);
    message.append(shown.as_str());
    proof {
        lemma_has_prefix_concat(prefix, shown@);
    }
    Err(RllessError::FileError { message, source: io_error_new(kind, detail) })
}

} // verus!
