//! Search settings and the search worker's viewport and navigation logic.

pub mod options;
pub mod pattern;
pub mod worker;

pub use options::SearchOptions;
