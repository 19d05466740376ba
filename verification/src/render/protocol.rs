//! Messages between the render coordinator and the search/paging worker.

use crate::error::RllessError;
use crate::input::service::SearchDirection;
use crate::search::options::SearchOptions;
use vstd::prelude::*;

verus! {

/// Identifier attached to requests so that responses can be matched to them.
pub type RequestId = u64;

/// Where the worker should put the top of the viewport.
#[derive(Debug, Clone, Copy, PartialEq, Eq, Structural)]
pub enum ViewportRequest {
    /// At an absolute byte offset.
    Absolute(u64),
    /// `lines` lines away from `anchor` (positive = down).
    RelativeLines { anchor: u64, lines: i64 },
    /// At the last full page of the file.
    EndOfFile,
}

/// The search whose matches are highlighted.
#[derive(Debug, PartialEq)]
pub struct SearchHighlightSpec {
    pub pattern: String,
    pub options: SearchOptions,
}

impl Clone for SearchHighlightSpec {
    fn clone(&self) -> (r: Self)
        ensures
            r == *self,
    {
        SearchHighlightSpec { pattern: self.pattern.clone(), options: self.options }
    }
}

/// Repeating a search forward or backward.
#[derive(Debug, Clone, Copy, PartialEq, Eq, Structural)]
pub enum MatchTraversal {
    Next,
    Previous,
}

/// The active search, kept by the worker so that searches can be repeated.
#[derive(Debug, PartialEq)]
pub struct SearchContext {
    pub pattern: String,
    pub direction: SearchDirection,
    pub options: SearchOptions,
    pub last_match_byte: Option<u64>,
}

impl Clone for SearchContext {
    fn clone(&self) -> (r: Self)
        ensures
            r == *self,
    {
        SearchContext {
            pattern: self.pattern.clone(),
            direction: self.direction,
            options: self.options,
            last_match_byte: self.last_match_byte,
        }
    }
}

/// Commands from the render coordinator to the worker.
#[derive(Debug, PartialEq)]
pub enum SearchCommand {
    LoadViewport {
        request_id: RequestId,
        top: ViewportRequest,
        page_lines: usize,
        highlights: Option<SearchHighlightSpec>,
    },
    ExecuteSearch {
        request_id: RequestId,
        pattern: String,
        direction: SearchDirection,
        options: SearchOptions,
        origin_byte: u64,
    },
    NavigateMatch { request_id: RequestId, traversal: MatchTraversal, current_top: u64 },
    UpdateSearchContext(SearchContext),
    ClearSearchContext,
    Shutdown,
}

/// Responses from the worker to the render coordinator.
#[derive(Debug)]
pub enum SearchResponse {
    ViewportLoaded {
        request_id: RequestId,
        top_byte: u64,
        lines: Vec<String>,
        highlights: Vec<Vec<(usize, usize)>>,
        at_eof: bool,
        file_size: u64,
    },
    SearchCompleted { request_id: RequestId, match_byte: Option<u64>, message: Option<String> },
    Error { request_id: RequestId, error: RllessError },
}

} // verus!
