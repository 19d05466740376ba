//! How the viewer opens a file: which byte source an accessor gets.

use crate::file_handler::accessor::FileAccessor;
use crate::file_handler::adaptive::{AdaptiveFileAccessor, ByteSource};
use crate::paths::buf_path;
use vstd::prelude::*;

verus! {

/// How a plain file's content is made available.
#[derive(Debug, Clone, Copy, PartialEq, Eq, Structural)]
pub enum LoadStrategy {
    /// Read the whole file into memory.
    ReadIntoMemory,
    /// Memory-map the file.
    MemoryMap,
}

/// Chooses the byte source for a file: files under `MEMORY_THRESHOLD` are read into
/// memory, larger ones memory-mapped; compressed files are decompressed first.
pub struct FileAccessorFactory;

impl FileAccessorFactory {
    /// Size from which plain files are memory-mapped rather than read (50 MiB).
    pub const MEMORY_THRESHOLD: u64 = 52428800u64;

    /// How a plain file of `file_size` bytes is loaded.
    pub fn load_strategy(file_size: u64) -> (r: LoadStrategy)
        ensures
            r == if file_size < Self::MEMORY_THRESHOLD {
                LoadStrategy::ReadIntoMemory
            } else {
                LoadStrategy::MemoryMap
            },
    {
        if file_size < Self::MEMORY_THRESHOLD {
            LoadStrategy::ReadIntoMemory
        } else {
            LoadStrategy::MemoryMap
        }
    }

    /// An accessor over decompressed content at `file_path`, reporting the content's
    /// length as the file size.
    pub fn for_decompressed(source: ByteSource, file_path: std::path::PathBuf) -> (r:
        AdaptiveFileAccessor)
        ensures
            r.content() == source.contents(),
            r.reported_size() == source.contents().len(),
            r.source() == source,
            r.path() == buf_path(&file_path),
    {
        let file_size = source.as_bytes().len() as u64;
        AdaptiveFileAccessor::new(source, file_size, file_path)
    }
}

} // verus!
