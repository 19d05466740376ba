//! Compression formats: recognising them by magic number or file extension, and the
//! decisions taken before decompressing a file.

use crate::error::{io_error_new, IoErrorKind, Result, RllessError};
use crate::paths::{extension_text, path_extension};
use crate::text::{str_eq, str_to_lowercase, lowercase_of};
use vstd::prelude::*;

verus! {

/// Compression formats the viewer opens transparently.
#[derive(Debug, Clone, Copy, PartialEq, Eq, Structural)]
pub enum CompressionType {
    /// Plain text: no compression.
    Uncompressed,
    /// Gzip (`.gz`).
    Gzip,
    /// Bzip2 (`.bz2`).
    Bzip2,
    /// XZ (`.xz`).
    Xz,
    /// Zstandard (`.zst`, `.zstd`).
    Zstd,
}

impl CompressionType {
    /// The format's name.
    pub open spec fn spec_name(self) -> Seq<char> {
        match self {
            CompressionType::Uncompressed => "none"@,
            CompressionType::Gzip => "gzip"@,
            CompressionType::Bzip2 => "bzip2"@,
            CompressionType::Xz => "xz"@,
            CompressionType::Zstd => "zstd"@,
        }
    }

    /// Human-readable name of the format.
    pub fn name(&self) -> (r: &'static str)
        ensures
            r@ == self.spec_name(),
    {
        proof {
            reveal_strlit("none");
            reveal_strlit("gzip");
            reveal_strlit("bzip2");
            reveal_strlit("xz");
            reveal_strlit("zstd");
        }
        match self {
            CompressionType::Uncompressed => "none",
            CompressionType::Gzip => "gzip",
            CompressionType::Bzip2 => "bzip2",
            CompressionType::Xz => "xz",
            CompressionType::Zstd => "zstd",
        }
    }

    /// Whether this is a compressed format.
    pub fn is_compressed(&self) -> (r: bool)
        ensures
            r == !(*self is Uncompressed),
    {
        !matches!(self, CompressionType::Uncompressed)
    }
}

/// The format whose magic number begins `m`: gzip `1f 8b`, bzip2 `42 5a 68` ("BZh"),
/// zstd `28 b5 2f fd`, xz `fd 37 7a 58 5a 00`; checked in that order.
pub open spec fn magic_compression(m: Seq<u8>) -> Option<CompressionType> {
    if m.len() < 2 {
        None
    } else if m[0] == 0x1f && m[1] == 0x8b {
        Some(CompressionType::Gzip)
    } else if m.len() >= 3 && m[0] == 0x42 && m[1] == 0x5a && m[2] == 0x68 {
        Some(CompressionType::Bzip2)
    } else if m.len() >= 4 && m[0] == 0x28 && m[1] == 0xb5 && m[2] == 0x2f && m[3] == 0xfd {
        Some(CompressionType::Zstd)
    } else if m.len() >= 6 && m[0] == 0xfd && m[1] == 0x37 && m[2] == 0x7a && m[3] == 0x58
        && m[4] == 0x5a && m[5] == 0x00 {
        Some(CompressionType::Xz)
    } else {
        None
    }
}

/// The format a lowercase file extension names.
pub open spec fn extension_compression(ext: Seq<char>) -> Option<CompressionType> {
    if ext == "gz"@ {
        Some(CompressionType::Gzip)
    } else if ext == "bz2"@ {
        Some(CompressionType::Bzip2)
    } else if ext == "xz"@ {
        Some(CompressionType::Xz)
    } else if ext == "zst"@ || ext == "zstd"@ {
        Some(CompressionType::Zstd)
    } else {
        None
    }
}

/// The format whose magic number the first bytes of a file show.
pub fn detect_by_magic(magic: &[u8]) -> (r: Option<CompressionType>)
    ensures
        r == magic_compression(magic@),
{
    let n = magic.len();
    if n < 2 {
        return None;
    }
    if magic[0] == 0x1f && magic[1] == 0x8b {
        Some(CompressionType::Gzip)
    } else if n >= 3 && magic[0] == 0x42 && magic[1] == 0x5a && magic[2] == 0x68 {
        Some(CompressionType::Bzip2)
    } else if n >= 4 && magic[0] == 0x28 && magic[1] == 0xb5 && magic[2] == 0x2f && magic[3]
        == 0xfd {
        Some(CompressionType::Zstd)
    } else if n >= 6 && magic[0] == 0xfd && magic[1] == 0x37 && magic[2] == 0x7a && magic[3]
        == 0x58 && magic[4] == 0x5a && magic[5] == 0x00 {
        Some(CompressionType::Xz)
    } else {
        None
    }
}

/// The format a lowercase extension names.
pub fn compression_for_lowercase_extension(ext: &str) -> (r: Option<CompressionType>)
    ensures
        r == extension_compression(ext@),
{
    proof {
        reveal_strlit("gz");
        reveal_strlit("bz2");
        reveal_strlit("xz");
        reveal_strlit("zst");
        reveal_strlit("zstd");
    }
    if str_eq(ext, "gz") {
        Some(CompressionType::Gzip)
    } else if str_eq(ext, "bz2") {
        Some(CompressionType::Bzip2)
    } else if str_eq(ext, "xz") {
        Some(CompressionType::Xz)
    } else if str_eq(ext, "zst") || str_eq(ext, "zstd") {
        Some(CompressionType::Zstd)
    } else {
        None
    }
}

/// The format an extension names, whatever its case.
pub fn compression_for_extension(ext: &str) -> (r: Option<CompressionType>)
    ensures
        r == extension_compression(lowercase_of(ext@)),
{
    let lower = str_to_lowercase(ext);
    compression_for_lowercase_extension(lower.as_str())
}

/// The format a path's extension names, whatever its case; `None` when the path has no
/// UTF-8 extension.
pub fn detect_by_extension(path: &std::path::Path) -> (r: Option<CompressionType>)
    ensures
        r == match extension_text(path) {
            Some(ext) => extension_compression(lowercase_of(ext)),
            None => None,
        },
{
    match path_extension(path) {
        Some(ext) => compression_for_extension(ext),
        None => None,
    }
}

/// The format of a file given its first bytes and the format its extension names: the
/// magic number decides when it is recognised, the extension otherwise, and a file
/// recognised by neither is plain.
pub fn compression_from_probe(header: &[u8], by_extension: Option<CompressionType>) -> (r:
    CompressionType)
    ensures
        r == match magic_compression(header@) {
            Some(c) => c,
            None => match by_extension {
                Some(c) => c,
                None => CompressionType::Uncompressed,
            },
        },
{
    if header.len() >= 2 {
        if let Some(format) = detect_by_magic(header) {
            return format;
        }
    }
    match by_extension {
        Some(format) => format,
        None => CompressionType::Uncompressed,
    }
}

/// Compressed files below this size are decompressed into memory, larger ones into a
/// temporary file.
pub const DECOMPRESS_IN_MEMORY_BELOW: u64 = 10_000_000u64;

/// Where a compressed file is decompressed to.
#[derive(Debug, Clone, Copy, PartialEq, Eq, Structural)]
pub enum DecompressionTarget {
    Memory,
    TempFile,
}

/// Decompression is only asked of a compressed format.
pub fn check_decompressible(compression: CompressionType) -> (r: Result<()>)
    ensures
        r is Ok <==> !(compression is Uncompressed),
        r matches Err(e) ==> e matches RllessError::FileError { message, .. } && message@
            == "decompress_file called with no compression"@,
{
    if !compression.is_compressed() {
        return Err(
            RllessError::file_error(
                "decompress_file called with no compression",
                io_error_new(IoErrorKind::InvalidInput, "No compression type"),
            ),
        );
    }
    Ok(())
}

/// Where a compressed file of `compressed_size` bytes is decompressed to.
pub fn decompression_target(compressed_size: u64) -> (r: DecompressionTarget)
    ensures
        r == if compressed_size < DECOMPRESS_IN_MEMORY_BELOW {
            DecompressionTarget::Memory
        } else {
            DecompressionTarget::TempFile
        },
{
    if compressed_size < DECOMPRESS_IN_MEMORY_BELOW {
        DecompressionTarget::Memory
    } else {
        DecompressionTarget::TempFile
    }
}

} // verus!
