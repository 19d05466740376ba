//! The search/paging worker's command handling.
//!
//! The worker owns a file accessor and answers the render coordinator's commands: it
//! loads viewports, runs searches and repeats them. The search engine itself is reached
//! through two functions handed to each command: one that searches the file from a byte
//! position in a direction, and one that lists the matches of the highlighted pattern on
//! a line.

use crate::error::{Result, RllessError};
use crate::file_handler::accessor::{read_outcome, FileAccessor};
use crate::file_handler::lines::{
    forward_starts, last_page_start_of, line_bytes, next_page_start_of, prev_page_start_of,
};
use crate::input::service::SearchDirection;
use crate::render::protocol::{
    MatchTraversal, RequestId, SearchCommand, SearchContext, SearchHighlightSpec, SearchResponse,
    ViewportRequest,
};
use crate::search::options::SearchOptions;
use crate::text::owned;
use vstd::prelude::*;
use vstd::utf8::valid_utf8;

verus! {

/// Where the viewport asked for by `top` starts in content `b` of reported size `size`,
/// for pages of `page_lines` lines: never past the start of the last page; 0 for an empty
/// file.
pub open spec fn viewport_target(b: Seq<u8>, size: u64, top: ViewportRequest, page_lines: usize) -> u64 {
    if size == 0 {
        0
    } else {
        let last = last_page_start_of(b, page_lines as nat) as u64;
        let t = match top {
            ViewportRequest::Absolute(x) => x,
            ViewportRequest::RelativeLines { anchor, lines } => if lines == 0 {
                anchor
            } else if lines > 0 {
                next_page_start_of(b, size, anchor, (lines as usize) as nat)
            } else {
                prev_page_start_of(b, anchor, ((-lines) as usize) as nat)
            },
            ViewportRequest::EndOfFile => last,
        };
        if t > last {
            last
        } else {
            t
        }
    }
}

/// A page read from `top` reaches the end: it is empty, or the next page would start at
/// or past the reported size.
pub open spec fn page_at_eof(b: Seq<u8>, size: u64, top: u64, page_lines: usize, shown: nat) -> bool {
    shown == 0 || next_page_start_of(
        b,
        size,
        top,
        (if page_lines > 1 {
            page_lines
        } else {
            1
        }) as nat,
    ) >= size
}

/// `m` may return `r` when asked for the matches of `spec` on a line of text `text`.
pub open spec fn may_return_matches<M: Fn(&SearchHighlightSpec, &str) -> Result<Vec<(usize, usize)>>>(
    m: M,
    spec: SearchHighlightSpec,
    text: Seq<char>,
    r: Result<Vec<(usize, usize)>>,
) -> bool {
    exists|s: &str| s@ == text && call_ensures(m, (&spec, s), r)
}

/// `r` is what listing the matches of `spec` line by line yields: each line's matches,
/// or the first error.
pub open spec fn highlights_outcome<M: Fn(&SearchHighlightSpec, &str) -> Result<Vec<(usize, usize)>>>(
    m: M,
    spec: SearchHighlightSpec,
    lines: Seq<String>,
    r: Result<Vec<Vec<(usize, usize)>>>,
) -> bool {
    match r {
        Ok(v) => {
            &&& v@.len() == lines.len()
            &&& forall|k: int|
                0 <= k < lines.len() ==> may_return_matches(m, spec, lines[k]@, Ok(#[trigger] v@[k]))
        },
        Err(e) => exists|k: int|
            0 <= k < lines.len() && may_return_matches(m, spec, (#[trigger] lines[k])@, Err(e)),
    }
}

/// The highlights of lines shown without a search: none on each line.
pub open spec fn no_highlights(h: Seq<Vec<(usize, usize)>>, n: nat) -> bool {
    h.len() == n && forall|k: int| 0 <= k < n ==> (#[trigger] h[k])@.len() == 0
}

/// Every line of the page of `page_lines` lines at `target` is UTF-8, so it can be read.
pub open spec fn page_readable(b: Seq<u8>, target: u64, page_lines: usize) -> bool {
    let qs = forward_starts(b, target as int, page_lines as nat);
    forall|k: int| 0 <= k < qs.len() ==> valid_utf8(line_bytes(b, #[trigger] qs[k]))
}

/// The pattern highlighted after a viewport load: the one the request names, once the
/// page has been read; otherwise the one highlighted before.
pub open spec fn highlight_after_load(
    b: Seq<u8>,
    size: u64,
    top: ViewportRequest,
    page_lines: usize,
    requested: Option<SearchHighlightSpec>,
    before: Option<SearchHighlightSpec>,
) -> Option<SearchHighlightSpec> {
    if requested is Some && page_readable(b, viewport_target(b, size, top, page_lines), page_lines) {
        requested
    } else {
        before
    }
}

/// `r` is what loading the viewport `top` of `page_lines` lines yields for content `b` of
/// reported size `size`, highlighting `spec` with `m`.
pub open spec fn viewport_outcome<M: Fn(&SearchHighlightSpec, &str) -> Result<Vec<(usize, usize)>>>(
    b: Seq<u8>,
    size: u64,
    request_id: RequestId,
    top: ViewportRequest,
    page_lines: usize,
    spec: Option<SearchHighlightSpec>,
    m: M,
    r: Result<SearchResponse>,
) -> bool {
    let target = viewport_target(b, size, top, page_lines);
    match r {
        Ok(resp) => resp matches SearchResponse::ViewportLoaded {
            request_id: id,
            top_byte,
            lines,
            highlights,
            at_eof,
            file_size,
        } && id == request_id && top_byte == target && read_outcome(
            b,
            target,
            page_lines,
            Ok(lines),
        ) && match spec {
            Some(sp) => highlights_outcome(m, sp, lines@, Ok(highlights)),
            None => no_highlights(highlights@, lines@.len()),
        } && at_eof == page_at_eof(b, size, target, page_lines, lines@.len()) && file_size == size,
        Err(e) => {
            ||| read_outcome(b, target, page_lines, Err(e))
            ||| exists|lines: Vec<String>|
                read_outcome(b, target, page_lines, Ok(lines)) && (spec matches Some(sp)
                    && highlights_outcome(m, sp, lines@, Err(e)))
        },
    }
}

/// `s` may return `r` when asked to search for `pattern` from `from` in `direction`.
pub open spec fn may_return_search<S: Fn(&str, u64, &SearchOptions, SearchDirection) -> Result<Option<u64>>>(
    s: S,
    pattern: Seq<char>,
    from: u64,
    options: SearchOptions,
    direction: SearchDirection,
    r: Result<Option<u64>>,
) -> bool {
    exists|p: &str| p@ == pattern && call_ensures(s, (p, from, &options, direction), r)
}

/// The answer to search request `request_id` whose search returned `r`: the match
/// position, "Pattern not found", or the error.
pub open spec fn search_answer(request_id: RequestId, r: Result<Option<u64>>, resp: SearchResponse) -> bool {
    match r {
        Ok(Some(byte)) => resp matches SearchResponse::SearchCompleted {
            request_id: id,
            match_byte,
            message,
        } && id == request_id && match_byte == Some(byte) && message is None,
        Ok(None) => resp matches SearchResponse::SearchCompleted {
            request_id: id,
            match_byte,
            message,
        } && id == request_id && match_byte is None && (message matches Some(t) && t@
            == "Pattern not found"@),
        Err(e) => resp == SearchResponse::Error { request_id, error: e },
    }
}

/// Repeating a search in `direction` with `traversal` searches forward: next match of a
/// forward search, previous match of a backward one.
pub open spec fn searches_forward(traversal: MatchTraversal, direction: SearchDirection) -> bool {
    (traversal == MatchTraversal::Next && direction == SearchDirection::Forward) || (traversal
        == MatchTraversal::Previous && direction == SearchDirection::Backward)
}

/// Where repeating a search starts: the next line when searching forward (the current
/// position when there is no next line), the previous line otherwise.
pub open spec fn navigation_start(b: Seq<u8>, size: u64, forward: bool, current_top: u64) -> u64 {
    if forward {
        let next = next_page_start_of(b, size, current_top, 1);
        if next == size {
            current_top
        } else {
            next
        }
    } else if current_top == 0 {
        0
    } else {
        prev_page_start_of(b, current_top, 1)
    }
}

/// The active search and highlighted pattern of a worker.
pub type SearchState = (Option<SearchContext>, Option<SearchHighlightSpec>);

/// Running a new search for `pattern` from `origin` in `direction` answered `r` and
/// turned the search state `before` into `after`: for some result the search may
/// return, `r` answers it, and unless it failed the search becomes the active one and
/// its pattern the highlighted one.
pub open spec fn execute_effect<S: Fn(&str, u64, &SearchOptions, SearchDirection) -> Result<Option<u64>>>(
    search: S,
    request_id: RequestId,
    pattern: String,
    direction: SearchDirection,
    options: SearchOptions,
    origin: u64,
    before: SearchState,
    after: SearchState,
    r: SearchResponse,
) -> bool {
    exists|result: Result<Option<u64>>|
        {
            &&& may_return_search(search, pattern@, origin, options, direction, result)
            &&& search_answer(request_id, result, r)
            &&& after == if result is Ok {
                (
                    Some(
                        SearchContext { pattern, direction, options, last_match_byte: result->Ok_0 },
                    ),
                    Some(SearchHighlightSpec { pattern, options }),
                )
            } else {
                before
            }
        }
}

/// Repeating the active search of `before` from the viewport at `current_top` answered
/// `r` and left the search state `after`: without an active search the answer is "No
/// active search"; otherwise the search runs from `navigation_start` in the direction
/// `searches_forward` gives, `r` answers some result it may return, and a match is
/// recorded in the active search and makes its pattern the highlighted one.
pub open spec fn navigate_effect<S: Fn(&str, u64, &SearchOptions, SearchDirection) -> Result<Option<u64>>>(
    search: S,
    b: Seq<u8>,
    size: u64,
    request_id: RequestId,
    traversal: MatchTraversal,
    current_top: u64,
    before: SearchState,
    after: SearchState,
    r: SearchResponse,
) -> bool {
    match before.0 {
        None => {
            &&& r matches SearchResponse::SearchCompleted { request_id: id, match_byte, message }
                && id == request_id && match_byte is None && (message matches Some(t) && t@
                == "No active search"@)
            &&& after == before
        },
        Some(ctx) => {
            let forward = searches_forward(traversal, ctx.direction);
            let start = navigation_start(b, size, forward, current_top);
            exists|result: Result<Option<u64>>|
                {
                    &&& may_return_search(
                        search,
                        ctx.pattern@,
                        start,
                        ctx.options,
                        if forward {
                            SearchDirection::Forward
                        } else {
                            SearchDirection::Backward
                        },
                        result,
                    )
                    &&& search_answer(request_id, result, r)
                    &&& after == match result {
                        Ok(Some(byte)) => (
                            Some(SearchContext { last_match_byte: Some(byte), ..ctx }),
                            Some(SearchHighlightSpec { pattern: ctx.pattern, options: ctx.options }),
                        ),
                        _ => before,
                    }
                }
        },
    }
}

/// The answer to a viewport request: the loaded page, or the error that stopped it.
pub open spec fn load_answer(request_id: RequestId, loaded: Result<SearchResponse>) -> SearchResponse {
    match loaded {
        Ok(v) => v,
        Err(error) => SearchResponse::Error { request_id, error },
    }
}

/// `resp` answers the viewport request `request_id`: it is what some load of the page
/// yields, or the error that stopped the load.
pub open spec fn viewport_answer<M: Fn(&SearchHighlightSpec, &str) -> Result<Vec<(usize, usize)>>>(
    b: Seq<u8>,
    size: u64,
    request_id: RequestId,
    top: ViewportRequest,
    page_lines: usize,
    spec: Option<SearchHighlightSpec>,
    m: M,
    resp: SearchResponse,
) -> bool {
    exists|loaded: Result<SearchResponse>|
        #[trigger] viewport_outcome(b, size, request_id, top, page_lines, spec, m, loaded) && resp
            == load_answer(request_id, loaded)
}

/// The other search direction.
pub open spec fn opposite(d: SearchDirection) -> SearchDirection {
    match d {
        SearchDirection::Forward => SearchDirection::Backward,
        SearchDirection::Backward => SearchDirection::Forward,
    }
}

/// Repeating a search keeps its direction: `n` (next) searches the way the active
/// search went, `N` (previous) the other way, starting from the line after the viewport
/// top when that way is forward and from the line before it when it is backward.
pub proof fn law_repeat_keeps_search_direction<S: Fn(&str, u64, &SearchOptions, SearchDirection) -> Result<Option<u64>>>(
    search: S,
    b: Seq<u8>,
    size: u64,
    request_id: RequestId,
    traversal: MatchTraversal,
    current_top: u64,
    before: SearchState,
    after: SearchState,
    r: SearchResponse,
)
    requires
        navigate_effect(search, b, size, request_id, traversal, current_top, before, after, r),
        before.0 is Some,
    ensures
        ({
            let ctx = before.0->0;
            let way = match traversal {
                MatchTraversal::Next => ctx.direction,
                MatchTraversal::Previous => opposite(ctx.direction),
            };
            let start = if way == SearchDirection::Forward {
                let next = next_page_start_of(b, size, current_top, 1);
                if next == size {
                    current_top
                } else {
                    next
                }
            } else if current_top == 0 {
                0
            } else {
                prev_page_start_of(b, current_top, 1)
            };
            exists|result: Result<Option<u64>>|
                may_return_search(search, ctx.pattern@, start, ctx.options, way, result)
                    && search_answer(request_id, result, r)
        }),
{
    let ctx = before.0->0;
    let forward = searches_forward(traversal, ctx.direction);
    let start = navigation_start(b, size, forward, current_top);
    let result = choose|result: Result<Option<u64>>|
        {
            &&& may_return_search(
                search,
                ctx.pattern@,
                start,
                ctx.options,
                if forward {
                    SearchDirection::Forward
                } else {
                    SearchDirection::Backward
                },
                result,
            )
            &&& search_answer(request_id, result, r)
            &&& after == match result {
                Ok(Some(byte)) => (
                    Some(SearchContext { last_match_byte: Some(byte), ..ctx }),
                    Some(SearchHighlightSpec { pattern: ctx.pattern, options: ctx.options }),
                ),
                _ => before,
            }
        };
    assert(search_answer(request_id, result, r));
}

/// A new search that does not fail becomes the active search exactly as requested (its
/// pattern, direction and settings, with the match it found) and its pattern the
/// highlighted one; a failed search changes nothing. Either way it searched from
/// `origin` in the requested direction.
pub proof fn law_new_search_is_recorded_as_requested<S: Fn(&str, u64, &SearchOptions, SearchDirection) -> Result<Option<u64>>>(
    search: S,
    request_id: RequestId,
    pattern: String,
    direction: SearchDirection,
    options: SearchOptions,
    origin: u64,
    before: SearchState,
    after: SearchState,
    r: SearchResponse,
)
    requires
        execute_effect(search, request_id, pattern, direction, options, origin, before, after, r),
    ensures
        r is Error ==> after == before,
        !(r is Error) ==> (after.0 matches Some(ctx) && ctx.pattern == pattern && ctx.direction
            == direction && ctx.options == options && (r matches SearchResponse::SearchCompleted {
            match_byte,
            ..
        } && ctx.last_match_byte == match_byte)),
        !(r is Error) ==> after.1 == Some(SearchHighlightSpec { pattern, options }),
        exists|result: Result<Option<u64>>|
            may_return_search(search, pattern@, origin, options, direction, result)
                && search_answer(request_id, result, r),
{
}

/// A viewport never starts past the start of the last page of a non-empty file.
pub proof fn law_viewport_within_last_page(b: Seq<u8>, size: u64, top: ViewportRequest, page_lines: usize)
    requires
        size > 0,
    ensures
        viewport_target(b, size, top, page_lines) <= last_page_start_of(b, page_lines as nat) as u64,
{
}

/// Every viewport of an empty file starts at byte 0.
pub proof fn law_empty_file_viewport_at_start(b: Seq<u8>, top: ViewportRequest, page_lines: usize)
    ensures
        viewport_target(b, 0, top, page_lines) == 0,
{
}

/// What handling a command produced: a response to send, and whether the worker stops.
pub struct HandlerOutcome {
    pub response: Option<SearchResponse>,
    pub done: bool,
}

impl HandlerOutcome {
    /// Send `response` and go on.
    pub fn respond(response: SearchResponse) -> (r: Self)
        ensures
            r.response == Some(response),
            !r.done,
    {
        HandlerOutcome { response: Some(response), done: false }
    }

    /// Send nothing and go on.
    pub fn continue_without_response() -> (r: Self)
        ensures
            r.response is None,
            !r.done,
    {
        HandlerOutcome { response: None, done: false }
    }

    /// Send nothing and stop.
    pub fn exit() -> (r: Self)
        ensures
            r.response is None,
            r.done,
    {
        HandlerOutcome { response: None, done: true }
    }
}

/// The worker's state: the accessor, the active search and the highlighted pattern.
pub struct WorkerState<A: FileAccessor> {
    file_accessor: A,
    context: Option<SearchContext>,
    last_highlight: Option<SearchHighlightSpec>,
    /// `(page_lines, start)` of the last page computed, reused while the page height
    /// stays the same.
    last_page_start: Option<(usize, u64)>,
}

impl<A: FileAccessor> WorkerState<A> {
    #[verifier::type_invariant]
    spec fn inv(&self) -> bool {
        self.last_page_start matches Some((n, pos)) ==> pos == last_page_start_of(
            self.file_accessor.content(),
            n as nat,
        ) as u64
    }

    /// The accessor's content.
    pub closed spec fn content(&self) -> Seq<u8> {
        self.file_accessor.content()
    }

    /// The size the accessor reports.
    pub closed spec fn size(&self) -> u64 {
        self.file_accessor.reported_size()
    }

    /// The active search, if any.
    pub closed spec fn context(&self) -> Option<SearchContext> {
        self.context
    }

    /// The pattern highlighted when a viewport request names none.
    pub closed spec fn last_highlight(&self) -> Option<SearchHighlightSpec> {
        self.last_highlight
    }

    /// A worker with no active search.
    pub fn new(file_accessor: A) -> (r: Self)
        ensures
            r.content() == file_accessor.content(),
            r.size() == file_accessor.reported_size(),
            r.context() is None,
            r.last_highlight() is None,
    {
        WorkerState { file_accessor, context: None, last_highlight: None, last_page_start: None }
    }

    /// The accessor.
    pub fn file_accessor(&self) -> (r: &A)
        ensures
            r.content() == self.content(),
            r.reported_size() == self.size(),
    {
        &self.file_accessor
    }

    /// Start of the last page of `page_lines` lines, `None` for an empty file; reuses
    /// the last computation while the page height stays the same.
    fn compute_last_page_start(&mut self, page_lines: usize, file_size: u64) -> (r: Result<
        Option<u64>,
    >)
        requires
            file_size == old(self).size(),
        ensures
            r == Ok::<Option<u64>, RllessError>(
                if file_size == 0 {
                    None
                } else {
                    Some(last_page_start_of(old(self).content(), page_lines as nat) as u64)
                },
            ),
            final(self).content() == old(self).content(),
            final(self).size() == old(self).size(),
            final(self).context() == old(self).context(),
            final(self).last_highlight() == old(self).last_highlight(),
    {
        proof {
            use_type_invariant(&*self);
        }
        if file_size == 0 {
            self.last_page_start = None;
            return Ok(None);
        }
        match self.last_page_start {
            Some((cached_lines, pos)) => {
                if cached_lines == page_lines {
                    return Ok(Some(pos));
                }
            },
            None => {},
        }
        let last = match self.file_accessor.last_page_start(page_lines) {
            Ok(v) => v,
            Err(e) => {
                return Err(e);
            },
        };
        self.last_page_start = Some((page_lines, last));
        Ok(Some(last))
    }

    /// Resolve a viewport request to the byte where the page starts.
    pub fn resolve_viewport_target(&mut self, top: ViewportRequest, page_lines: usize) -> (r:
        Result<u64>)
        requires
            top matches ViewportRequest::RelativeLines { anchor, lines } ==> lines != i64::MIN
                && (lines < 0 ==> anchor <= old(self).content().len() + 1),
        ensures
            r == Ok::<u64, RllessError>(
                viewport_target(old(self).content(), old(self).size(), top, page_lines),
            ),
            final(self).content() == old(self).content(),
            final(self).size() == old(self).size(),
            final(self).context() == old(self).context(),
            final(self).last_highlight() == old(self).last_highlight(),
    {
        let file_size = self.file_accessor.file_size();
        if file_size == 0 {
            return Ok(0);
        }
        let last_start = match self.compute_last_page_start(page_lines, file_size) {
            Ok(v) => v,
            Err(e) => {
                return Err(e);
            },
        };
        let target = match top {
            ViewportRequest::Absolute(byte) => byte,
            ViewportRequest::RelativeLines { anchor, lines } => {
                if lines == 0 {
                    anchor
                } else if lines > 0 {
                    match self.file_accessor.next_page_start(anchor, lines as usize) {
                        Ok(v) => v,
                        Err(e) => {
                            return Err(e);
                        },
                    }
                } else {
                    match self.file_accessor.prev_page_start(anchor, (-lines) as usize) {
                        Ok(v) => v,
                        Err(e) => {
                            return Err(e);
                        },
                    }
                }
            },
            ViewportRequest::EndOfFile => match last_start {
                Some(v) => v,
                None => 0,
            },
        };
        let target = match last_start {
            Some(last) => if target > last {
                last
            } else {
                target
            },
            None => target,
        };
        Ok(target)
    }

    /// The matches of `spec` on each of `lines`, as `line_matches` lists them; the first
    /// error stops the listing.
    pub fn compute_highlights<M: Fn(&SearchHighlightSpec, &str) -> Result<Vec<(usize, usize)>>>(
        &self,
        spec: &SearchHighlightSpec,
        lines: &Vec<String>,
        line_matches: &M,
    ) -> (r: Result<Vec<Vec<(usize, usize)>>>)
        requires
            forall|sp: &SearchHighlightSpec, s: &str| call_requires(*line_matches, (sp, s)),
        ensures
            highlights_outcome(*line_matches, *spec, lines@, r),
    {
        let mut all: Vec<Vec<(usize, usize)>> = Vec::new();
        let mut i: usize = 0;
        while i < lines.len()
            invariant
                forall|sp: &SearchHighlightSpec, s: &str| call_requires(*line_matches, (sp, s)),
                i <= lines@.len(),
                all@.len() == i,
                forall|k: int|
                    0 <= k < i ==> may_return_matches(
                        *line_matches,
                        *spec,
                        lines@[k]@,
                        Ok(#[trigger] all@[k]),
                    ),
            decreases lines@.len() - i,
        {
            let text = lines[i].as_str();
            let result = line_matches(spec, text);
            match result {
                Ok(ranges) => {
                    assert(may_return_matches(*line_matches, *spec, lines@[i as int]@, Ok(ranges)));
                    all.push(ranges);
                },
                Err(e) => {
                    assert(may_return_matches(
                        *line_matches,
                        *spec,
                        lines@[i as int]@,
                        Err(e),
                    ));
                    return Err(e);
                },
            }
            i = i + 1;
        }
        Ok(all)
    }

    /// Whether a page of `page_lines` lines read from `top_byte` reaches the end.
    pub fn detect_eof(&self, top_byte: u64, page_lines: usize, file_size: u64, lines: &Vec<String>)
        -> (r: Result<bool>)
        requires
            file_size == self.size(),
        ensures
            r == Ok::<bool, RllessError>(
                page_at_eof(self.content(), file_size, top_byte, page_lines, lines@.len()),
            ),
    {
        if lines.len() == 0 {
            return Ok(true);
        }
        let skip = if page_lines > 1 {
            page_lines
        } else {
            1
        };
        match self.file_accessor.next_page_start(top_byte, skip) {
            Ok(next) => Ok(next >= file_size),
            Err(e) => Err(e),
        }
    }

    /// Load the viewport `top` of `page_lines` lines. A pattern named by the request is
    /// used and, once the page has been read, becomes the highlighted one; without one,
    /// the last highlighted pattern is used.
    pub fn load_viewport<M: Fn(&SearchHighlightSpec, &str) -> Result<Vec<(usize, usize)>>>(
        &mut self,
        request_id: RequestId,
        top: ViewportRequest,
        page_lines: usize,
        highlights: Option<SearchHighlightSpec>,
        line_matches: &M,
    ) -> (r: Result<SearchResponse>)
        requires
            forall|sp: &SearchHighlightSpec, s: &str| call_requires(*line_matches, (sp, s)),
            top matches ViewportRequest::RelativeLines { anchor, lines } ==> lines != i64::MIN
                && (lines < 0 ==> anchor <= old(self).content().len() + 1),
        ensures
            viewport_outcome(
                old(self).content(),
                old(self).size(),
                request_id,
                top,
                page_lines,
                if highlights is Some {
                    highlights
                } else {
                    old(self).last_highlight()
                },
                *line_matches,
                r,
            ),
            final(self).content() == old(self).content(),
            final(self).size() == old(self).size(),
            final(self).context() == old(self).context(),
            final(self).last_highlight() == highlight_after_load(
                old(self).content(),
                old(self).size(),
                top,
                page_lines,
                highlights,
                old(self).last_highlight(),
            ),
    {
        proof {
            use_type_invariant(&*self);
        }
        let target = match self.resolve_viewport_target(top, page_lines) {
            Ok(t) => t,
            Err(e) => {
                return Err(e);
            },
        };
        proof {
            use_type_invariant(&*self);
        }
        let lines = match self.file_accessor.read_from_byte(target, page_lines) {
            Ok(lines) => lines,
            Err(e) => {
                return Err(e);
            },
        };
        let highlight_spec = match highlights {
            Some(spec) => {
                self.last_highlight = Some(spec.clone());
                Some(spec)
            },
            None => match &self.last_highlight {
                Some(spec) => Some(spec.clone()),
                None => None,
            },
        };
        let line_highlights = match &highlight_spec {
            Some(spec) => match self.compute_highlights(spec, &lines, line_matches) {
                Ok(h) => h,
                Err(e) => {
                    return Err(e);
                },
            },
            None => {
                let mut empty: Vec<Vec<(usize, usize)>> = Vec::new();
                let mut i: usize = 0;
                while i < lines.len()
                    invariant
                        i <= lines@.len(),
                        no_highlights(empty@, i as nat),
                    decreases lines@.len() - i,
                {
                    empty.push(Vec::new());
                    i = i + 1;
                }
                empty
            },
        };
        let file_size = self.file_accessor.file_size();
        let at_eof = match self.detect_eof(target, page_lines, file_size, &lines) {
            Ok(v) => v,
            Err(e) => {
                return Err(e);
            },
        };
        Ok(
            SearchResponse::ViewportLoaded {
                request_id,
                top_byte: target,
                lines,
                highlights: line_highlights,
                at_eof,
                file_size,
            },
        )
    }

    /// Run a new search for `pattern` from `origin_byte` in `direction`. Whether or not it
    /// finds a match, the search becomes the active one and its pattern the highlighted
    /// one; a failed search changes nothing.
    pub fn execute_search<S: Fn(&str, u64, &SearchOptions, SearchDirection) -> Result<Option<u64>>>(
        &mut self,
        request_id: RequestId,
        pattern: String,
        direction: SearchDirection,
        options: SearchOptions,
        origin_byte: u64,
        search: &S,
    ) -> (r: SearchResponse)
        requires
            forall|p: &str, from: u64, o: &SearchOptions, d: SearchDirection|
                call_requires(*search, (p, from, o, d)),
        ensures
            final(self).content() == old(self).content(),
            final(self).size() == old(self).size(),
            execute_effect(
                *search,
                request_id,
                pattern,
                direction,
                options,
                origin_byte,
                (old(self).context(), old(self).last_highlight()),
                (final(self).context(), final(self).last_highlight()),
                r,
            ),
    {
        proof {
            use_type_invariant(&*self);
            reveal_strlit("Pattern not found");
        }
        let ghost old_context = self.context;
        let ghost old_highlight = self.last_highlight;
        let ghost pattern_view = pattern@;
        let ghost pattern_value = pattern;
        let result = search(pattern.as_str(), origin_byte, &options, direction);
        assert(may_return_search(*search, pattern@, origin_byte, options, direction, result));
        let response = match result {
            Ok(found) => {
                self.last_highlight = Some(SearchHighlightSpec { pattern: pattern.clone(), options });
                self.context = Some(
                    SearchContext { pattern, direction, options, last_match_byte: found },
                );
                match found {
                    Some(byte) => SearchResponse::SearchCompleted {
                        request_id,
                        match_byte: Some(byte),
                        message: None,
                    },
                    None => SearchResponse::SearchCompleted {
                        request_id,
                        match_byte: None,
                        message: Some(owned("Pattern not found")),
                    },
                }
            },
            Err(error) => SearchResponse::Error { request_id, error },
        };
        assert(search_answer(request_id, result, response));
        assert(if result is Ok {
            &&& self.context == Some(
                SearchContext {
                    pattern: pattern_value,
                    direction,
                    options,
                    last_match_byte: result->Ok_0,
                },
            )
            &&& self.last_highlight == Some(SearchHighlightSpec { pattern: pattern_value, options })
        } else {
            &&& self.context == old_context
            &&& self.last_highlight == old_highlight
        });
        response
    }

    /// Where repeating a search starts, given how it is repeated.
    pub fn start_position_for_navigation(
        &self,
        traversal: MatchTraversal,
        direction: SearchDirection,
        current_top: u64,
    ) -> (r: Result<u64>)
        requires
            !searches_forward(traversal, direction) && current_top > 0 ==> current_top
                <= self.content().len() + 1,
        ensures
            r == Ok::<u64, RllessError>(
                navigation_start(
                    self.content(),
                    self.size(),
                    searches_forward(traversal, direction),
                    current_top,
                ),
            ),
    {
        let forward = match (traversal, direction) {
            (MatchTraversal::Next, SearchDirection::Forward) => true,
            (MatchTraversal::Previous, SearchDirection::Backward) => true,
            _ => false,
        };
        if forward {
            self.next_line_start(current_top)
        } else {
            self.prev_line_start(current_top)
        }
    }

    /// The start of the line after the one at `current_byte`, or `current_byte` itself
    /// when there is no next line.
    pub fn next_line_start(&self, current_byte: u64) -> (r: Result<u64>)
        ensures
            r == Ok::<u64, RllessError>(navigation_start(self.content(), self.size(), true, current_byte)),
    {
        let new_byte = match self.file_accessor.next_page_start(current_byte, 1) {
            Ok(v) => v,
            Err(e) => {
                return Err(e);
            },
        };
        if new_byte == self.file_accessor.file_size() {
            Ok(current_byte)
        } else {
            Ok(new_byte)
        }
    }

    /// The start of the line before the one at `current_byte`; 0 at the start.
    pub fn prev_line_start(&self, current_byte: u64) -> (r: Result<u64>)
        requires
            current_byte <= self.content().len() + 1,
        ensures
            r == Ok::<u64, RllessError>(navigation_start(self.content(), self.size(), false, current_byte)),
    {
        if current_byte == 0 {
            Ok(0)
        } else {
            self.file_accessor.prev_page_start(current_byte, 1)
        }
    }

    /// Whether repeating the active search from `current_top` first steps back a line
    /// from there: when a search is active, the repetition searches backward, and
    /// `current_top` is past the start. Only then must `current_top` lie at most one byte
    /// past the end of the content.
    pub fn navigation_steps_back(&self, traversal: MatchTraversal, current_top: u64) -> (r: bool)
        ensures
            r == (self.context() matches Some(ctx) && !searches_forward(traversal, ctx.direction)
                && current_top > 0),
    {
        match &self.context {
            None => false,
            Some(ctx) => {
                let forward = match (traversal, ctx.direction) {
                    (MatchTraversal::Next, SearchDirection::Forward) => true,
                    (MatchTraversal::Previous, SearchDirection::Backward) => true,
                    _ => false,
                };
                !forward && current_top > 0
            },
        }
    }

    /// Repeat the active search from the viewport at `current_top`: forward for the next
    /// match of a forward search or the previous match of a backward one, backward
    /// otherwise. A match is recorded in the active search; without an active search the
    /// answer is "No active search".
    pub fn navigate_match<S: Fn(&str, u64, &SearchOptions, SearchDirection) -> Result<Option<u64>>>(
        &mut self,
        request_id: RequestId,
        traversal: MatchTraversal,
        current_top: u64,
        search: &S,
    ) -> (r: SearchResponse)
        requires
            forall|p: &str, from: u64, o: &SearchOptions, d: SearchDirection|
                call_requires(*search, (p, from, o, d)),
            old(self).context() matches Some(ctx) && !searches_forward(traversal, ctx.direction)
                && current_top > 0 ==> current_top <= old(self).content().len() + 1,
        ensures
            final(self).content() == old(self).content(),
            final(self).size() == old(self).size(),
            navigate_effect(
                *search,
                old(self).content(),
                old(self).size(),
                request_id,
                traversal,
                current_top,
                (old(self).context(), old(self).last_highlight()),
                (final(self).context(), final(self).last_highlight()),
                r,
            ),
    {
        proof {
            use_type_invariant(&*self);
            reveal_strlit("No active search");
            reveal_strlit("Pattern not found");
        }
        let (direction, options, pattern) = match &self.context {
            Some(ctx) => (ctx.direction, ctx.options, ctx.pattern.clone()),
            None => {
                return SearchResponse::SearchCompleted {
                    request_id,
                    match_byte: None,
                    message: Some(owned("No active search")),
                };
            },
        };
        let start_byte = match self.start_position_for_navigation(traversal, direction, current_top) {
            Ok(byte) => byte,
            Err(error) => {
                return SearchResponse::Error { request_id, error };
            },
        };
        let forward = match (traversal, direction) {
            (MatchTraversal::Next, SearchDirection::Forward) => true,
            (MatchTraversal::Previous, SearchDirection::Backward) => true,
            _ => false,
        };
        let search_direction = if forward {
            SearchDirection::Forward
        } else {
            SearchDirection::Backward
        };
        let ghost old_context = self.context;
        let ghost old_highlight = self.last_highlight;
        let result = search(pattern.as_str(), start_byte, &options, search_direction);
        assert(may_return_search(*search, pattern@, start_byte, options, search_direction, result));
        let response = match result {
            Ok(Some(byte)) => {
                let updated = match &self.context {
                    Some(ctx) => {
                        let mut next = ctx.clone();
                        next.last_match_byte = Some(byte);
                        Some(next)
                    },
                    None => None,
                };
                if let Some(next) = updated {
                    self.last_highlight = Some(
                        SearchHighlightSpec { pattern: next.pattern.clone(), options: next.options },
                    );
                    self.context = Some(next);
                }
                SearchResponse::SearchCompleted { request_id, match_byte: Some(byte), message: None }
            },
            Ok(None) => SearchResponse::SearchCompleted {
                request_id,
                match_byte: None,
                message: Some(owned("Pattern not found")),
            },
            Err(error) => SearchResponse::Error { request_id, error },
        };
        assert(search_answer(request_id, result, response));
        assert(match result {
            Ok(Some(byte)) => {
                &&& self.context == Some(
                    SearchContext { last_match_byte: Some(byte), ..old_context->0 },
                )
                &&& self.last_highlight == Some(
                    SearchHighlightSpec {
                        pattern: old_context->0.pattern,
                        options: old_context->0.options,
                    },
                )
            },
            _ => {
                &&& self.context == old_context
                &&& self.last_highlight == old_highlight
            },
        });
        response
    }
    /// Answer one command. Viewport loads answer with the page or the error that stopped
    /// them; searches and repeated searches with their answers; a new search context
    /// replaces the active search and highlighted pattern, and clearing drops both, with
    /// no answer; shutdown stops the worker.
    pub fn handle_command<
        S: Fn(&str, u64, &SearchOptions, SearchDirection) -> Result<Option<u64>>,
        M: Fn(&SearchHighlightSpec, &str) -> Result<Vec<(usize, usize)>>,
    >(&mut self, cmd: SearchCommand, search: &S, line_matches: &M) -> (r: HandlerOutcome)
        requires
            forall|p: &str, from: u64, o: &SearchOptions, d: SearchDirection|
                call_requires(*search, (p, from, o, d)),
            forall|sp: &SearchHighlightSpec, s: &str| call_requires(*line_matches, (sp, s)),
            cmd matches SearchCommand::LoadViewport { top, .. } ==> (top matches ViewportRequest::RelativeLines {
                anchor,
                lines,
            } ==> lines != i64::MIN && (lines < 0 ==> anchor <= old(self).content().len() + 1)),
            cmd matches SearchCommand::NavigateMatch { traversal, current_top, .. } ==> (old(
                self,
            ).context() matches Some(ctx) && !searches_forward(traversal, ctx.direction)
                && current_top > 0 ==> current_top <= old(self).content().len() + 1),
        ensures
            final(self).content() == old(self).content(),
            final(self).size() == old(self).size(),
            r.done == (cmd is Shutdown),
            ({
                let before = (old(self).context(), old(self).last_highlight());
                let after = (final(self).context(), final(self).last_highlight());
                match cmd {
                    SearchCommand::LoadViewport { request_id, top, page_lines, highlights } => {
                        let spec = if highlights is Some {
                            highlights
                        } else {
                            old(self).last_highlight()
                        };
                        &&& after == (
                            old(self).context(),
                            highlight_after_load(
                                old(self).content(),
                                old(self).size(),
                                top,
                                page_lines,
                                highlights,
                                old(self).last_highlight(),
                            ),
                        )
                        &&& r.response matches Some(resp) && viewport_answer(
                            old(self).content(),
                            old(self).size(),
                            request_id,
                            top,
                            page_lines,
                            spec,
                            *line_matches,
                            resp,
                        )
                    },
                    SearchCommand::ExecuteSearch {
                        request_id,
                        pattern,
                        direction,
                        options,
                        origin_byte,
                    } => r.response matches Some(resp) && execute_effect(
                        *search,
                        request_id,
                        pattern,
                        direction,
                        options,
                        origin_byte,
                        before,
                        after,
                        resp,
                    ),
                    SearchCommand::NavigateMatch { request_id, traversal, current_top } => r.response matches Some(resp)
                        && navigate_effect(
                        *search,
                        old(self).content(),
                        old(self).size(),
                        request_id,
                        traversal,
                        current_top,
                        before,
                        after,
                        resp,
                    ),
                    SearchCommand::UpdateSearchContext(ctx) => {
                        &&& r.response is None
                        &&& after == (
                            Some(ctx),
                            Some(SearchHighlightSpec { pattern: ctx.pattern, options: ctx.options }),
                        )
                    },
                    SearchCommand::ClearSearchContext => {
                        &&& r.response is None
                        &&& after == (None::<SearchContext>, None::<SearchHighlightSpec>)
                    },
                    SearchCommand::Shutdown => {
                        &&& r.response is None
                        &&& after == before
                    },
                }
            }),
    {
        proof {
            use_type_invariant(&*self);
        }
        match cmd {
            SearchCommand::LoadViewport { request_id, top, page_lines, highlights } => {
                let ghost spec = if highlights is Some {
                    highlights
                } else {
                    old(self).last_highlight()
                };
                let loaded = self.load_viewport(request_id, top, page_lines, highlights, line_matches);
                let ghost loaded_value = loaded;
                let response = match loaded {
                    Ok(response) => response,
                    Err(error) => SearchResponse::Error { request_id, error },
                };
                assert(viewport_outcome(
                    old(self).content(),
                    old(self).size(),
                    request_id,
                    top,
                    page_lines,
                    spec,
                    *line_matches,
                    loaded_value,
                ));
                assert(response == load_answer(request_id, loaded_value));
                assert(viewport_answer(
                    old(self).content(),
                    old(self).size(),
                    request_id,
                    top,
                    page_lines,
                    spec,
                    *line_matches,
                    response,
                ));
                HandlerOutcome::respond(response)
            },
            SearchCommand::ExecuteSearch { request_id, pattern, direction, options, origin_byte } => {
                HandlerOutcome::respond(
                    self.execute_search(request_id, pattern, direction, options, origin_byte, search),
                )
            },
            SearchCommand::NavigateMatch { request_id, traversal, current_top } => {
                HandlerOutcome::respond(self.navigate_match(request_id, traversal, current_top, search))
            },
            SearchCommand::UpdateSearchContext(new_context) => {
                self.last_highlight = Some(
                    SearchHighlightSpec {
                        pattern: new_context.pattern.clone(),
                        options: new_context.options,
                    },
                );
                self.context = Some(new_context);
                HandlerOutcome::continue_without_response()
            },
            SearchCommand::ClearSearchContext => {
                self.context = None;
                self.last_highlight = None;
                HandlerOutcome::continue_without_response()
            },
            SearchCommand::Shutdown => HandlerOutcome::exit(),
        }
    }
}

} // verus!
