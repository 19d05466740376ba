//! File access: byte-level line navigation over a file's content, the lazy line index,
//! compression detection and the accessor types built on them.

pub mod accessor;
pub mod adaptive;
pub mod compression;
pub mod factory;
pub mod in_memory;
pub mod line_index;
pub mod lines;
pub mod mmap;
pub mod scan;
pub mod validation;

pub use accessor::FileAccessor;
pub use adaptive::AdaptiveFileAccessor;
pub use compression::CompressionType;
pub use factory::FileAccessorFactory;
pub use validation::check_file_facts;
