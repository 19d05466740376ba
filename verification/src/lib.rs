//! rlless: the verified core of a `less`-style viewer for very large log files.
//!
//! The library holds the byte-level line navigation, the lazily built line index,
//! compression detection, the input state machines, the render coordinator's decision
//! logic and the search worker's viewport logic. Terminal, file-system and channel I/O
//! live in the application crate around it.

pub mod error;
pub mod file_handler;
pub mod input;
pub mod paths;
pub mod render;
pub mod search;
pub mod text;
pub mod ui;

pub use error::{Result, RllessError};
pub use file_handler::FileAccessor;
pub use search::SearchOptions;

use vstd::prelude::*;

verus! {

/// The library's version.
pub const VERSION: &'static str = "0.1.0";

} // verus!
