use rlless::input::{InputAction, ScrollDirection, SearchDirection};
use rlless::render::protocol::{
    MatchTraversal, SearchCommand, SearchHighlightSpec, SearchResponse, ViewportRequest,
};
use rlless::render::service::RenderLoopState;
use rlless::search::SearchOptions;
use rlless::ui::state::ViewState;
use rlless::RllessError;
use std::path::PathBuf;

struct Bookkeeping {
    next: u64,
    view: Option<u64>,
    search: Option<u64>,
    pending: Option<(u64, SearchHighlightSpec)>,
    outbox: Vec<SearchCommand>,
}

fn bookkeeping() -> Bookkeeping {
    Bookkeeping { next: 1, view: None, search: None, pending: None, outbox: Vec::new() }
}

fn act(state: &mut RenderLoopState, view: &mut ViewState, b: &mut Bookkeeping, action: InputAction) -> bool {
    state.process_action(
        action,
        view,
        &mut b.next,
        &mut b.view,
        &mut b.search,
        &mut b.pending,
        &mut b.outbox,
    )
}

fn respond(state: &mut RenderLoopState, view: &mut ViewState, b: &mut Bookkeeping, response: SearchResponse) {
    state.handle_response(
        response,
        view,
        &mut b.view,
        &mut b.search,
        &mut b.pending,
        &mut b.next,
        &mut b.outbox,
    )
}

fn view() -> ViewState {
    ViewState::new(PathBuf::from("/tmp/x.log"), 80, 11)
}

#[test]
fn scrolling_asks_for_relative_viewport() {
    let mut state = RenderLoopState::new();
    let mut v = view();
    v.viewport_top_byte = 40;
    v.at_eof = true;
    let mut b = bookkeeping();
    assert!(act(&mut state, &mut v, &mut b, InputAction::Scroll { direction: ScrollDirection::Up, lines: 3 }));
    assert!(!v.at_eof);
    assert_eq!(b.next, 2);
    assert_eq!(b.view, Some(1));
    assert_eq!(
        b.outbox,
        vec![SearchCommand::LoadViewport {
            request_id: 1,
            top: ViewportRequest::RelativeLines { anchor: 40, lines: -3 },
            page_lines: 10,
            highlights: None,
        }]
    );
    act(&mut state, &mut v, &mut b, InputAction::PageDown);
    assert_eq!(
        b.outbox[1],
        SearchCommand::LoadViewport {
            request_id: 2,
            top: ViewportRequest::RelativeLines { anchor: 40, lines: 10 },
            page_lines: 10,
            highlights: None,
        }
    );
    assert!(!act(&mut state, &mut v, &mut b, InputAction::Quit));
}

#[test]
fn blank_search_closes_prompt_only() {
    let mut state = RenderLoopState::new();
    let mut v = view();
    let mut b = bookkeeping();
    v.status_line.set_message("old".to_string());
    act(&mut state, &mut v, &mut b, InputAction::ExecuteSearch {
        pattern: "   ".to_string(),
        direction: SearchDirection::Forward,
    });
    assert!(b.outbox.is_empty());
    assert!(v.status_line.message.is_none());
    assert_eq!(b.next, 1);
}

#[test]
fn search_round_trip_activates_highlight() {
    let mut state = RenderLoopState::new();
    let mut v = view();
    let mut b = bookkeeping();
    act(&mut state, &mut v, &mut b, InputAction::ExecuteSearch {
        pattern: "  err ".to_string(),
        direction: SearchDirection::Forward,
    });
    assert_eq!(b.search, Some(1));
    assert_eq!(
        b.outbox,
        vec![SearchCommand::ExecuteSearch {
            request_id: 1,
            pattern: "err".to_string(),
            direction: SearchDirection::Forward,
            options: SearchOptions::default(),
            origin_byte: 0,
        }]
    );
    respond(&mut state, &mut v, &mut b, SearchResponse::SearchCompleted {
        request_id: 1,
        match_byte: Some(120),
        message: None,
    });
    assert!(b.search.is_none());
    assert!(b.pending.is_none());
    let spec = SearchHighlightSpec { pattern: "err".to_string(), options: SearchOptions::default() };
    assert_eq!(state.highlight_spec(), Some(spec.clone()));
    assert_eq!(b.view, Some(2));
    assert_eq!(
        b.outbox[1],
        SearchCommand::LoadViewport {
            request_id: 2,
            top: ViewportRequest::Absolute(120),
            page_lines: 10,
            highlights: Some(spec),
        }
    );
    act(&mut state, &mut v, &mut b, InputAction::NextMatch);
    assert_eq!(
        b.outbox[2],
        SearchCommand::NavigateMatch { request_id: 3, traversal: MatchTraversal::Next, current_top: 0 }
    );
}

#[test]
fn next_match_without_search_reports_it() {
    let mut state = RenderLoopState::new();
    let mut v = view();
    let mut b = bookkeeping();
    act(&mut state, &mut v, &mut b, InputAction::PreviousMatch);
    assert_eq!(v.status_line.message.as_deref(), Some("No active search"));
    assert!(b.outbox.is_empty());
}

#[test]
fn stale_viewport_is_ignored_and_latest_applied() {
    let mut state = RenderLoopState::new();
    let mut v = view();
    let mut b = bookkeeping();
    b.view = Some(7);
    respond(&mut state, &mut v, &mut b, SearchResponse::ViewportLoaded {
        request_id: 6,
        top_byte: 99,
        lines: vec!["x".to_string()],
        highlights: vec![vec![]],
        at_eof: true,
        file_size: 100,
    });
    assert_eq!(v.viewport_top_byte, 0);
    assert_eq!(b.view, Some(7));
    respond(&mut state, &mut v, &mut b, SearchResponse::ViewportLoaded {
        request_id: 7,
        top_byte: 99,
        lines: vec!["x".to_string()],
        highlights: vec![vec![]],
        at_eof: true,
        file_size: 100,
    });
    assert_eq!(v.viewport_top_byte, 99);
    assert_eq!(v.visible_lines, vec!["x".to_string()]);
    assert!(v.at_eof);
    assert_eq!(v.file_size, Some(100));
    assert!(b.view.is_none());
}

#[test]
fn not_found_message_drops_pending_search() {
    let mut state = RenderLoopState::new();
    let mut v = view();
    let mut b = bookkeeping();
    act(&mut state, &mut v, &mut b, InputAction::ExecuteSearch {
        pattern: "zzz".to_string(),
        direction: SearchDirection::Backward,
    });
    respond(&mut state, &mut v, &mut b, SearchResponse::SearchCompleted {
        request_id: 1,
        match_byte: None,
        message: Some("Pattern not found".to_string()),
    });
    assert_eq!(v.status_line.message.as_deref(), Some("Pattern not found"));
    assert!(b.pending.is_none());
    assert!(state.highlight_spec().is_none());
}

#[test]
fn errors_are_shown_and_settle_requests() {
    let mut state = RenderLoopState::new();
    let mut v = view();
    let mut b = bookkeeping();
    b.view = Some(4);
    respond(&mut state, &mut v, &mut b, SearchResponse::Error {
        request_id: 4,
        error: RllessError::search("bad regex"),
    });
    assert!(b.view.is_none());
    assert_eq!(
        v.status_line.message.as_deref(),
        Some("Operation failed: Search operation failed: bad regex")
    );
}

#[test]
fn cancel_search_reloads_without_highlight() {
    let mut state = RenderLoopState::new();
    state.set_search(SearchHighlightSpec { pattern: "a".to_string(), options: SearchOptions::default() });
    let mut v = view();
    v.viewport_top_byte = 5;
    let mut b = bookkeeping();
    act(&mut state, &mut v, &mut b, InputAction::CancelSearch);
    assert!(state.highlight_spec().is_none());
    assert_eq!(
        b.outbox,
        vec![SearchCommand::LoadViewport {
            request_id: 1,
            top: ViewportRequest::Absolute(5),
            page_lines: 10,
            highlights: None,
        }]
    );
}

#[test]
fn resize_reloads_only_on_change() {
    let mut state = RenderLoopState::new();
    let mut v = view();
    let mut b = bookkeeping();
    act(&mut state, &mut v, &mut b, InputAction::Resize { width: 80, height: 11 });
    assert!(b.outbox.is_empty());
    act(&mut state, &mut v, &mut b, InputAction::Resize { width: 80, height: 21 });
    assert_eq!(
        b.outbox,
        vec![SearchCommand::LoadViewport {
            request_id: 1,
            top: ViewportRequest::Absolute(0),
            page_lines: 20,
            highlights: None,
        }]
    );
}

#[test]
fn percent_jump_loads_that_share_of_the_file() {
    let mut state = RenderLoopState::new();
    let mut v = view();
    let mut b = bookkeeping();
    assert!(act(&mut state, &mut v, &mut b, InputAction::SubmitPercent(50)));
    assert!(b.outbox.is_empty());
    assert_eq!(b.next, 1);

    v.file_size = Some(1000);
    v.at_eof = true;
    assert!(act(&mut state, &mut v, &mut b, InputAction::SubmitPercent(25)));
    assert!(!v.at_eof);
    assert_eq!(b.view, Some(1));
    assert_eq!(
        b.outbox,
        vec![SearchCommand::LoadViewport {
            request_id: 1,
            top: ViewportRequest::Absolute(250),
            page_lines: 10,
            highlights: None,
        }]
    );
    act(&mut state, &mut v, &mut b, InputAction::SubmitPercent(200));
    assert_eq!(
        b.outbox[1],
        SearchCommand::LoadViewport {
            request_id: 2,
            top: ViewportRequest::Absolute(1000),
            page_lines: 10,
            highlights: None,
        }
    );
    assert_eq!(rlless::render::service::percent_target(u64::MAX, 100), u64::MAX);
    assert_eq!(rlless::render::service::percent_target(7, 50), 3);
}

#[test]
fn command_flags_change_the_search_settings() {
    let mut state = RenderLoopState::new();
    let mut v = view();
    let mut b = bookkeeping();
    assert!(act(&mut state, &mut v, &mut b, InputAction::ExecuteCommand { buffer: "inw".to_string() }));
    assert_eq!(
        state.search_options(),
        SearchOptions { case_sensitive: false, whole_word: true, regex_mode: false }
    );
    assert_eq!(
        v.status_line.message.as_deref(),
        Some("Options: ignore-case, literal, whole word")
    );
    assert!(b.outbox.is_empty());

    act(&mut state, &mut v, &mut b, InputAction::ExecuteCommand { buffer: "ri".to_string() });
    assert_eq!(
        state.search_options(),
        SearchOptions { case_sensitive: true, whole_word: true, regex_mode: true }
    );

    act(
        &mut state,
        &mut v,
        &mut b,
        InputAction::ExecuteSearch { pattern: "err".to_string(), direction: SearchDirection::Forward },
    );
    match &b.outbox[0] {
        SearchCommand::ExecuteSearch { options, .. } => {
            assert_eq!(*options, SearchOptions { case_sensitive: true, whole_word: true, regex_mode: true })
        }
        other => panic!("unexpected command {:?}", other),
    }
}

#[test]
fn seeded_settings_are_used_for_searches() {
    let seeded = SearchOptions { case_sensitive: false, whole_word: false, regex_mode: true };
    let state = RenderLoopState::with_options(seeded);
    assert_eq!(state.search_options(), seeded);
}
