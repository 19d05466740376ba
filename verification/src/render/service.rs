//! The render coordinator's decisions.
//!
//! Given an input action or a worker response, the coordinator updates the view state
//! and its request bookkeeping, and appends the commands the worker must receive to an
//! outbox; the application sends them in order.

use crate::error::{renders_as, RllessError};
use crate::input::service::{InputAction, ScrollDirection, SearchDirection};
use crate::render::protocol::{
    MatchTraversal, RequestId, SearchCommand, SearchHighlightSpec, SearchResponse, ViewportRequest,
};
use crate::search::options::{apply_flags, options_summary, SearchOptions};
use crate::text::{owned, str_trim, trim_whitespace};
use crate::ui::state::{page_lines, StatusLine, ViewState};
use vstd::prelude::*;

verus! {

/// The line offset a scroll action asks for: down is positive, up negative.
pub open spec fn scroll_delta(direction: ScrollDirection, lines: u64) -> i64 {
    match direction {
        ScrollDirection::Down => lines as i64,
        ScrollDirection::Up => (-(lines as i64)) as i64,
    }
}

/// The viewport request command with id `id`.
pub open spec fn load_command(
    id: RequestId,
    top: ViewportRequest,
    view: ViewState,
    highlights: Option<SearchHighlightSpec>,
) -> SearchCommand {
    SearchCommand::LoadViewport {
        request_id: id,
        top,
        page_lines: page_lines(view.viewport_height) as usize,
        highlights,
    }
}

/// The byte a jump to `percent` percent of a file of `size` bytes goes to; percentages
/// above 100 count as 100.
pub open spec fn percent_position(size: u64, percent: u8) -> u64 {
    let p: int = if percent < 100 {
        percent as int
    } else {
        100
    };
    (size * p / 100) as u64
}

/// The byte a jump to `percent` percent of a file of `size` bytes goes to.
pub fn percent_target(size: u64, percent: u8) -> (r: u64)
    ensures
        r == percent_position(size, percent),
        r <= size,
{
    let p: u64 = if percent < 100 {
        percent as u64
    } else {
        100
    };
    assert(size * p <= size * 100) by (nonlinear_arith)
        requires
            p <= 100,
    ;
    assert(size * p / 100 <= size) by (nonlinear_arith)
        requires
            p <= 100,
    ;
    let product: u128 = (size as u128) * (p as u128);
    (product / 100) as u64
}

/// A jump to a percentage lands on the whole byte at or before that share of the file:
/// 0% is the start, 100% (or more) the size itself, and a larger percentage never lands
/// earlier.
pub proof fn law_percent_position(size: u64, percent: u8, other: u8)
    ensures
        percent_position(size, 0) == 0,
        percent >= 100 ==> percent_position(size, percent) == size,
        percent <= 100 ==> percent_position(size, percent) * 100 <= size * percent < (
        percent_position(size, percent) + 1) * 100,
        percent <= other ==> percent_position(size, percent) <= percent_position(size, other),
{
    let p: int = if percent < 100 {
        percent as int
    } else {
        100
    };
    let q: int = if other < 100 {
        other as int
    } else {
        100
    };
    assert(size * p / 100 <= size) by (nonlinear_arith)
        requires
            0 <= p <= 100,
            size >= 0,
    ;
    assert(size * q / 100 <= size) by (nonlinear_arith)
        requires
            0 <= q <= 100,
            size >= 0,
    ;
    assert((size * p / 100) * 100 <= size * p < (size * p / 100 + 1) * 100) by (nonlinear_arith)
        requires
            size * p >= 0,
    ;
    assert(p <= q ==> size * p / 100 <= size * q / 100) by (nonlinear_arith)
        requires
            0 <= p,
            0 <= q,
            size >= 0,
    ;
    assert(size * 100 / 100 == size) by (nonlinear_arith);
}

/// Scrolling down moves the viewport toward the end by the number of lines asked for,
/// scrolling up toward the start by as many.
pub proof fn law_scroll_delta(lines: u64)
    requires
        lines <= i64::MAX,
    ensures
        scroll_delta(ScrollDirection::Down, lines) == lines,
        scroll_delta(ScrollDirection::Up, lines) == -lines,
{
}

/// Render-related state that persists across input actions and worker responses: the
/// search whose matches are highlighted, and the settings new searches use.
pub struct RenderLoopState {
    search_state: Option<SearchHighlightSpec>,
    search_options: SearchOptions,
}

impl RenderLoopState {
    /// The search being highlighted.
    pub closed spec fn active_search(&self) -> Option<SearchHighlightSpec> {
        self.search_state
    }

    /// The settings new searches use.
    pub closed spec fn options(&self) -> SearchOptions {
        self.search_options
    }

    /// No search is active; searches use the default settings.
    pub fn new() -> (r: Self)
        ensures
            r.active_search() is None,
            r.options() == SearchOptions::spec_default(),
    {
        RenderLoopState { search_state: None, search_options: SearchOptions::default() }
    }

    /// No search is active; searches use `options`.
    pub fn with_options(options: SearchOptions) -> (r: Self)
        ensures
            r.active_search() is None,
            r.options() == options,
    {
        RenderLoopState { search_state: None, search_options: options }
    }

    /// The settings new searches use.
    pub fn search_options(&self) -> (r: SearchOptions)
        ensures
            r == self.options(),
    {
        self.search_options
    }

    /// A copy of the active search.
    pub fn highlight_spec(&self) -> (r: Option<SearchHighlightSpec>)
        ensures
            r == self.active_search(),
    {
        match &self.search_state {
            Some(state) => Some(state.clone()),
            None => None,
        }
    }

    /// Forget the active search.
    pub fn clear_search(&mut self)
        ensures
            final(self).active_search() is None,
            final(self).options() == old(self).options(),
    {
        self.search_state = None;
    }

    /// Make `search` the active search.
    pub fn set_search(&mut self, search: SearchHighlightSpec)
        ensures
            final(self).active_search() == Some(search),
            final(self).options() == old(self).options(),
    {
        self.search_state = Some(search);
    }

    /// Ask for a viewport at `top` under a fresh request id, which becomes the latest
    /// viewport request.
    fn request_viewport(
        &self,
        top: ViewportRequest,
        view_state: &ViewState,
        next_request_id: &mut RequestId,
        latest_view_request: &mut Option<RequestId>,
        outbox: &mut Vec<SearchCommand>,
    ) -> (r: RequestId)
        requires
            *old(next_request_id) < u64::MAX,
        ensures
            r == *old(next_request_id),
            *final(next_request_id) == *old(next_request_id) + 1,
            *final(latest_view_request) == Some(r),
            final(outbox)@ == old(outbox)@.push(
                load_command(r, top, *view_state, self.active_search()),
            ),
    {
        let request_id = *next_request_id;
        *next_request_id = *next_request_id + 1;
        *latest_view_request = Some(request_id);
        outbox.push(
            SearchCommand::LoadViewport {
                request_id,
                top,
                page_lines: view_state.lines_per_page() as usize,
                highlights: self.highlight_spec(),
            },
        );
        request_id
    }

    /// Handle one input action. Returns `false` when the viewer should quit.
    ///
    /// Navigation actions clear the end-of-file mark and ask for a viewport; prompt
    /// actions update the status line; a search action with a non-blank pattern asks the
    /// worker to search from the top of the viewport with the current settings and
    /// remembers the pattern until the worker answers; `n`/`N` repeat the active search;
    /// a resize that changes the size reloads the viewport. A submitted percentage asks
    /// for the viewport at that share of the file once the file's size is known; an
    /// executed command applies its flags to the settings and shows them. Other actions
    /// change nothing.
    pub fn process_action(
        &mut self,
        action: InputAction,
        view_state: &mut ViewState,
        next_request_id: &mut RequestId,
        latest_view_request: &mut Option<RequestId>,
        latest_search_request: &mut Option<RequestId>,
        pending_search_state: &mut Option<(RequestId, SearchHighlightSpec)>,
        outbox: &mut Vec<SearchCommand>,
    ) -> (r: bool)
        requires
            *old(next_request_id) < u64::MAX,
            action matches InputAction::Scroll { direction, lines } ==> !(direction
                == ScrollDirection::Up && lines as i64 == i64::MIN),
        ensures
            r == !(action is Quit),
            !(action is ExecuteCommand) ==> final(self).options() == old(self).options(),
            ({
                let id = *old(next_request_id);
                let top = old(view_state).viewport_top_byte;
                let unchanged_requests = *final(next_request_id) == *old(next_request_id)
                    && *final(latest_view_request) == *old(latest_view_request)
                    && final(outbox)@ == old(outbox)@;
                let unchanged_search = *final(latest_search_request) == *old(
                    latest_search_request,
                ) && *final(pending_search_state) == *old(pending_search_state)
                    && final(self).active_search() == old(self).active_search();
                let loads = |req: ViewportRequest, view: ViewState, hl: Option<SearchHighlightSpec>|
                    *final(next_request_id) == id + 1 && *final(latest_view_request) == Some(id)
                        && final(outbox)@ == old(outbox)@.push(load_command(id, req, view, hl));
                match action {
                    InputAction::Scroll { direction, lines } => {
                        &&& *final(view_state) == (ViewState { at_eof: false, ..*old(view_state) })
                        &&& unchanged_search
                        &&& loads(
                            ViewportRequest::RelativeLines {
                                anchor: top,
                                lines: scroll_delta(direction, lines),
                            },
                            *old(view_state),
                            old(self).active_search(),
                        )
                    },
                    InputAction::PageUp => {
                        &&& *final(view_state) == (ViewState { at_eof: false, ..*old(view_state) })
                        &&& unchanged_search
                        &&& loads(
                            ViewportRequest::RelativeLines {
                                anchor: top,
                                lines: (-(page_lines(old(view_state).viewport_height) as i64)) as i64,
                            },
                            *old(view_state),
                            old(self).active_search(),
                        )
                    },
                    InputAction::PageDown => {
                        &&& *final(view_state) == (ViewState { at_eof: false, ..*old(view_state) })
                        &&& unchanged_search
                        &&& loads(
                            ViewportRequest::RelativeLines {
                                anchor: top,
                                lines: page_lines(old(view_state).viewport_height) as i64,
                            },
                            *old(view_state),
                            old(self).active_search(),
                        )
                    },
                    InputAction::GoToStart => {
                        &&& *final(view_state) == (ViewState { at_eof: false, ..*old(view_state) })
                        &&& unchanged_search
                        &&& loads(
                            ViewportRequest::Absolute(0),
                            *old(view_state),
                            old(self).active_search(),
                        )
                    },
                    InputAction::GoToEnd => {
                        &&& *final(view_state) == (ViewState { at_eof: false, ..*old(view_state) })
                        &&& unchanged_search
                        &&& loads(
                            ViewportRequest::EndOfFile,
                            *old(view_state),
                            old(self).active_search(),
                        )
                    },
                    InputAction::StartSearch(direction) => {
                        &&& final(view_state).status_line.search_prompt matches Some((d, b))
                            && d == direction && b@.len() == 0
                        &&& *final(view_state) == (ViewState {
                            status_line: StatusLine {
                                search_prompt: final(view_state).status_line.search_prompt,
                                ..old(view_state).status_line
                            },
                            ..*old(view_state)
                        })
                        &&& unchanged_search
                        &&& unchanged_requests
                    },
                    InputAction::UpdateSearchBuffer { direction, buffer } => {
                        &&& *final(view_state) == (ViewState {
                            status_line: StatusLine {
                                search_prompt: Some((direction, buffer)),
                                ..old(view_state).status_line
                            },
                            ..*old(view_state)
                        })
                        &&& unchanged_search
                        &&& unchanged_requests
                    },
                    InputAction::CancelSearch => {
                        let view = ViewState {
                            status_line: StatusLine { search_prompt: None, message: None },
                            ..*old(view_state)
                        };
                        &&& *final(view_state) == view
                        &&& final(self).active_search() is None
                        &&& *final(pending_search_state) is None
                        &&& *final(latest_search_request) == *old(latest_search_request)
                        &&& loads(ViewportRequest::Absolute(top), view, None)
                    },
                    InputAction::ExecuteSearch { pattern, direction } => {
                        let trimmed = trim_whitespace(pattern@);
                        if trimmed.len() == 0 {
                            &&& *final(view_state) == (ViewState {
                                status_line: StatusLine { search_prompt: None, message: None },
                                ..*old(view_state)
                            })
                            &&& unchanged_search
                            &&& unchanged_requests
                        } else {
                            &&& *final(view_state) == *old(view_state)
                            &&& final(self).active_search() == old(self).active_search()
                            &&& *final(next_request_id) == id + 1
                            &&& *final(latest_view_request) == *old(latest_view_request)
                            &&& *final(latest_search_request) == Some(id)
                            &&& *final(pending_search_state) matches Some((pid, h)) && pid == id
                                && h.pattern@ == trimmed && h.options
                                == old(self).options()
                            &&& final(outbox)@.len() == old(outbox)@.len() + 1
                            &&& final(outbox)@.drop_last() == old(outbox)@
                            &&& final(outbox)@.last() matches SearchCommand::ExecuteSearch {
                                request_id,
                                pattern: p,
                                direction: d,
                                options,
                                origin_byte,
                            } && request_id == id && p@ == trimmed && d == direction && options
                                == old(self).options() && origin_byte == top
                        }
                    },
                    InputAction::NextMatch | InputAction::PreviousMatch => {
                        if old(self).active_search() is None {
                            &&& final(view_state).status_line.message matches Some(m) && m@
                                == "No active search"@
                            &&& *final(view_state) == (ViewState {
                                status_line: StatusLine {
                                    message: final(view_state).status_line.message,
                                    ..old(view_state).status_line
                                },
                                ..*old(view_state)
                            })
                            &&& unchanged_search
                            &&& unchanged_requests
                        } else {
                            &&& *final(view_state) == *old(view_state)
                            &&& final(self).active_search() == old(self).active_search()
                            &&& *final(pending_search_state) == *old(pending_search_state)
                            &&& *final(next_request_id) == id + 1
                            &&& *final(latest_view_request) == *old(latest_view_request)
                            &&& *final(latest_search_request) == Some(id)
                            &&& final(outbox)@ == old(outbox)@.push(
                                SearchCommand::NavigateMatch {
                                    request_id: id,
                                    traversal: if action is NextMatch {
                                        MatchTraversal::Next
                                    } else {
                                        MatchTraversal::Previous
                                    },
                                    current_top: top,
                                },
                            )
                        }
                    },
                    InputAction::Resize { width, height } => {
                        &&& unchanged_search
                        &&& final(view_state).viewport_width == width
                        &&& final(view_state).viewport_height == height
                        &&& if old(view_state).viewport_width != width
                            || old(view_state).viewport_height != height {
                            &&& final(view_state).visible_lines@.len() == 0
                            &&& final(view_state).search_highlights@.len() == 0
                            &&& !final(view_state).at_eof
                            &&& final(view_state).viewport_top_byte == top
                            &&& final(view_state).status_line == old(view_state).status_line
                            &&& final(view_state).file_size == old(view_state).file_size
                            &&& loads(
                                ViewportRequest::Absolute(top),
                                *final(view_state),
                                old(self).active_search(),
                            )
                        } else {
                            &&& *final(view_state) == *old(view_state)
                            &&& unchanged_requests
                        }
                    },
                    InputAction::SubmitPercent(percent) => match old(view_state).file_size {
                        Some(size) => {
                            &&& *final(view_state) == (ViewState {
                                at_eof: false,
                                ..*old(view_state)
                            })
                            &&& unchanged_search
                            &&& loads(
                                ViewportRequest::Absolute(percent_position(size, percent)),
                                *old(view_state),
                                old(self).active_search(),
                            )
                        },
                        None => {
                            &&& *final(view_state) == *old(view_state)
                            &&& unchanged_search
                            &&& unchanged_requests
                        },
                    },
                    InputAction::ExecuteCommand { buffer } => {
                        let options = apply_flags(old(self).options(), buffer@);
                        &&& final(self).options() == options
                        &&& final(view_state).status_line.message matches Some(m) && m@
                            == options_summary(options)
                        &&& *final(view_state) == (ViewState {
                            status_line: StatusLine {
                                message: final(view_state).status_line.message,
                                ..old(view_state).status_line
                            },
                            ..*old(view_state)
                        })
                        &&& unchanged_search
                        &&& unchanged_requests
                    },
                    _ => {
                        &&& *final(view_state) == *old(view_state)
                        &&& unchanged_search
                        &&& unchanged_requests
                    },
                }
            }),
    {
        proof {
            reveal_strlit("No active search");
        }
        match action {
            InputAction::Quit => false,
            InputAction::Scroll { direction, lines } => {
                view_state.at_eof = false;
                let delta: i64 = match direction {
                    ScrollDirection::Up => -(lines as i64),
                    ScrollDirection::Down => lines as i64,
                };
                self.request_viewport(
                    ViewportRequest::RelativeLines { anchor: view_state.viewport_top_byte, lines: delta },
                    view_state,
                    next_request_id,
                    latest_view_request,
                    outbox,
                );
                true
            },
            InputAction::PageUp => {
                view_state.at_eof = false;
                let lines: i64 = -(view_state.lines_per_page() as i64);
                self.request_viewport(
                    ViewportRequest::RelativeLines { anchor: view_state.viewport_top_byte, lines },
                    view_state,
                    next_request_id,
                    latest_view_request,
                    outbox,
                );
                true
            },
            InputAction::PageDown => {
                view_state.at_eof = false;
                let lines: i64 = view_state.lines_per_page() as i64;
                self.request_viewport(
                    ViewportRequest::RelativeLines { anchor: view_state.viewport_top_byte, lines },
                    view_state,
                    next_request_id,
                    latest_view_request,
                    outbox,
                );
                true
            },
            InputAction::GoToStart => {
                view_state.at_eof = false;
                self.request_viewport(
                    ViewportRequest::Absolute(0),
                    view_state,
                    next_request_id,
                    latest_view_request,
                    outbox,
                );
                true
            },
            InputAction::GoToEnd => {
                view_state.at_eof = false;
                self.request_viewport(
                    ViewportRequest::EndOfFile,
                    view_state,
                    next_request_id,
                    latest_view_request,
                    outbox,
                );
                true
            },
            InputAction::StartSearch(direction) => {
                view_state.status_line.set_search_prompt(direction);
                true
            },
            InputAction::UpdateSearchBuffer { direction, buffer } => {
                view_state.status_line.update_search_prompt(direction, buffer);
                true
            },
            InputAction::CancelSearch => {
                view_state.status_line.clear_search_prompt();
                view_state.status_line.message = None;
                self.clear_search();
                *pending_search_state = None;
                self.request_viewport(
                    ViewportRequest::Absolute(view_state.viewport_top_byte),
                    view_state,
                    next_request_id,
                    latest_view_request,
                    outbox,
                );
                true
            },
            InputAction::ExecuteSearch { pattern, direction } => {
                let trimmed = str_trim(pattern.as_str());
                if trimmed.is_empty() {
                    view_state.status_line.clear_search_prompt();
                    view_state.status_line.message = None;
                    return true;
                }
                let options = self.search_options;
                let request_id = *next_request_id;
                *next_request_id = *next_request_id + 1;
                *latest_search_request = Some(request_id);
                let highlight = SearchHighlightSpec { pattern: owned(trimmed), options };
                *pending_search_state = Some((request_id, highlight));
                outbox.push(
                    SearchCommand::ExecuteSearch {
                        request_id,
                        pattern: owned(trimmed),
                        direction,
                        options,
                        origin_byte: view_state.viewport_top_byte,
                    },
                );
                true
            },
            InputAction::NextMatch | InputAction::PreviousMatch => {
                if self.search_state.is_none() {
                    view_state.status_line.set_message(owned("No active search"));
                    return true;
                }
                let traversal = match action {
                    InputAction::NextMatch => MatchTraversal::Next,
                    _ => MatchTraversal::Previous,
                };
                let request_id = *next_request_id;
                *next_request_id = *next_request_id + 1;
                *latest_search_request = Some(request_id);
                outbox.push(
                    SearchCommand::NavigateMatch {
                        request_id,
                        traversal,
                        current_top: view_state.viewport_top_byte,
                    },
                );
                true
            },
            InputAction::Resize { width, height } => {
                if view_state.update_terminal_size(width, height) {
                    self.request_viewport(
                        ViewportRequest::Absolute(view_state.viewport_top_byte),
                        view_state,
                        next_request_id,
                        latest_view_request,
                        outbox,
                    );
                }
                true
            },
            InputAction::SubmitPercent(percent) => {
                if let Some(size) = view_state.file_size {
                    view_state.at_eof = false;
                    let target = percent_target(size, percent);
                    self.request_viewport(
                        ViewportRequest::Absolute(target),
                        view_state,
                        next_request_id,
                        latest_view_request,
                        outbox,
                    );
                }
                true
            },
            InputAction::ExecuteCommand { buffer } => {
                self.search_options = self.search_options.apply_command(buffer.as_str());
                view_state.status_line.set_message(self.search_options.summary());
                true
            },
            _ => true,
        }
    }
    /// Handle one worker response.
    ///
    /// A response to a request that is no longer the latest of its kind is ignored. A
    /// loaded viewport replaces the shown content. A finished search either reports its
    /// message (and drops the search it started, if that search is still pending), or
    /// moves the viewport to its match, making the pending search the active one. An
    /// error is shown on the status line and settles the request it answers.
    pub fn handle_response(
        &mut self,
        response: SearchResponse,
        view_state: &mut ViewState,
        latest_view_request: &mut Option<RequestId>,
        latest_search_request: &mut Option<RequestId>,
        pending_search_state: &mut Option<(RequestId, SearchHighlightSpec)>,
        next_request_id: &mut RequestId,
        outbox: &mut Vec<SearchCommand>,
    )
        requires
            *old(next_request_id) < u64::MAX,
        ensures
            final(self).options() == old(self).options(),
            ({
                let id = *old(next_request_id);
                let unchanged_requests = *final(next_request_id) == *old(next_request_id)
                    && *final(latest_view_request) == *old(latest_view_request)
                    && final(outbox)@ == old(outbox)@;
                let unchanged_search = *final(latest_search_request) == *old(
                    latest_search_request,
                ) && *final(pending_search_state) == *old(pending_search_state)
                    && final(self).active_search() == old(self).active_search();
                let unchanged = unchanged_requests && unchanged_search && *final(view_state)
                    == *old(view_state);
                match response {
                    SearchResponse::ViewportLoaded {
                        request_id,
                        top_byte,
                        lines,
                        highlights,
                        at_eof,
                        file_size,
                    } => if *old(latest_view_request) == Some(request_id) {
                        &&& *final(view_state) == (ViewState {
                            viewport_top_byte: top_byte,
                            at_eof,
                            visible_lines: lines,
                            search_highlights: highlights,
                            file_size: Some(file_size),
                            ..*old(view_state)
                        })
                        &&& *final(latest_view_request) is None
                        &&& *final(next_request_id) == *old(next_request_id)
                        &&& final(outbox)@ == old(outbox)@
                        &&& unchanged_search
                    } else {
                        unchanged
                    },
                    SearchResponse::SearchCompleted { request_id, match_byte, message } => {
                        if *old(latest_search_request) != Some(request_id) {
                            unchanged
                        } else {
                            let pending_matches = *old(pending_search_state) matches Some(
                                (pid, _),
                            ) && pid == request_id;
                            &&& *final(latest_search_request) is None
                            &&& match message {
                                Some(msg) => {
                                    &&& *final(view_state) == (ViewState {
                                        status_line: StatusLine {
                                            search_prompt: None,
                                            message: Some(msg),
                                        },
                                        ..*old(view_state)
                                    })
                                    &&& unchanged_requests
                                    &&& if pending_matches {
                                        &&& *final(pending_search_state) is None
                                        &&& final(self).active_search() is None
                                    } else {
                                        &&& *final(pending_search_state) == *old(
                                            pending_search_state,
                                        )
                                        &&& final(self).active_search() == old(
                                            self,
                                        ).active_search()
                                    }
                                },
                                None => match match_byte {
                                    Some(byte) => {
                                        let view = ViewState {
                                            status_line: StatusLine {
                                                search_prompt: None,
                                                message: None,
                                            },
                                            at_eof: false,
                                            ..*old(view_state)
                                        };
                                        let active = match *old(pending_search_state) {
                                            Some((pid, st)) if pid == request_id => Some(st),
                                            _ => old(self).active_search(),
                                        };
                                        &&& *final(view_state) == view
                                        &&& *final(pending_search_state) is None
                                        &&& final(self).active_search() == active
                                        &&& *final(next_request_id) == id + 1
                                        &&& *final(latest_view_request) == Some(id)
                                        &&& final(outbox)@ == old(outbox)@.push(
                                            load_command(
                                                id,
                                                ViewportRequest::Absolute(byte),
                                                view,
                                                active,
                                            ),
                                        )
                                    },
                                    None => {
                                        &&& *final(view_state) == *old(view_state)
                                        &&& unchanged_requests
                                        &&& *final(pending_search_state) == *old(
                                            pending_search_state,
                                        )
                                        &&& final(self).active_search() == old(
                                            self,
                                        ).active_search()
                                    },
                                },
                            }
                        }
                    },
                    SearchResponse::Error { request_id, error } => {
                        let view_settled = *old(latest_view_request) == Some(request_id);
                        let search_settled = *old(latest_search_request) == Some(request_id);
                        &&& final(view_state).status_line.message matches Some(m) && exists|
                            t: Seq<char>,
                        | m@ == "Operation failed: "@ + t && renders_as(error, t)
                        &&& *final(view_state) == (ViewState {
                            status_line: StatusLine {
                                message: final(view_state).status_line.message,
                                ..old(view_state).status_line
                            },
                            ..*old(view_state)
                        })
                        &&& *final(latest_view_request) == if view_settled {
                            None
                        } else {
                            *old(latest_view_request)
                        }
                        &&& *final(latest_search_request) == if search_settled {
                            None
                        } else {
                            *old(latest_search_request)
                        }
                        &&& *final(pending_search_state) == if search_settled {
                            None
                        } else {
                            *old(pending_search_state)
                        }
                        &&& final(self).active_search() == old(self).active_search()
                        &&& *final(next_request_id) == *old(next_request_id)
                        &&& final(outbox)@ == old(outbox)@
                    },
                }
            }),
    {
        proof {
            reveal_strlit("Operation failed: ");
        }
        match response {
            SearchResponse::ViewportLoaded {
                request_id,
                top_byte,
                lines,
                highlights,
                at_eof,
                file_size,
            } => {
                if *latest_view_request != Some(request_id) {
                    return;
                }
                *latest_view_request = None;
                view_state.navigate_to_byte(top_byte);
                view_state.at_eof = at_eof;
                view_state.update_viewport_content(lines, highlights);
                view_state.file_size = Some(file_size);
            },
            SearchResponse::SearchCompleted { request_id, match_byte, message } => {
                if *latest_search_request != Some(request_id) {
                    return;
                }
                *latest_search_request = None;
                match message {
                    Some(msg) => {
                        view_state.status_line.clear_search_prompt();
                        view_state.status_line.set_message(msg);
                        let pending_matches = match pending_search_state {
                            Some((pending_id, _)) => *pending_id == request_id,
                            None => false,
                        };
                        if pending_matches {
                            *pending_search_state = None;
                            self.clear_search();
                        }
                    },
                    None => {
                        if let Some(byte) = match_byte {
                            view_state.status_line.clear_search_prompt();
                            view_state.status_line.message = None;
                            let pending = pending_search_state.take();
                            if let Some((pending_id, state)) = pending {
                                if pending_id == request_id {
                                    self.set_search(state);
                                }
                            }
                            view_state.at_eof = false;
                            let id = self.request_viewport(
                                ViewportRequest::Absolute(byte),
                                view_state,
                                next_request_id,
                                latest_view_request,
                                outbox,
                            );
                            *latest_view_request = Some(id);
                        }
                    },
                }
            },
            SearchResponse::Error { request_id, error } => {
                if *latest_view_request == Some(request_id) {
                    *latest_view_request = None;
                }
                if *latest_search_request == Some(request_id) {
                    *latest_search_request = None;
                    *pending_search_state = None;
                }
                let text = error.to_string();
                let mut msg = owned("Operation failed: ");
                msg.append(text.as_str());
                assert(msg@ == "Operation failed: "@ + text@);
                view_state.status_line.set_message(msg);
            },
        }
    }
}

} // verus!
