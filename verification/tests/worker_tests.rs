use rlless::file_handler::adaptive::{AdaptiveFileAccessor, ByteSource};
use rlless::file_handler::FileAccessor;
use rlless::input::SearchDirection;
use rlless::render::protocol::{
    MatchTraversal, SearchCommand, SearchContext, SearchHighlightSpec, SearchResponse,
    ViewportRequest,
};
use rlless::search::worker::{HandlerOutcome, WorkerState};
use rlless::search::SearchOptions;
use rlless::RllessError;
use std::path::PathBuf;

fn accessor_over(content: &str) -> AdaptiveFileAccessor {
    AdaptiveFileAccessor::new(
        ByteSource::InMemory(content.as_bytes().to_vec()),
        content.len() as u64,
        PathBuf::from("/test/worker.log"),
    )
}

fn literal_matches(pattern: &str, line: &str) -> Vec<(usize, usize)> {
    line.match_indices(pattern).map(|(i, m)| (i, i + m.len())).collect()
}

fn searcher(
    content: &str,
) -> impl Fn(&str, u64, &SearchOptions, SearchDirection) -> rlless::Result<Option<u64>> {
    let accessor = accessor_over(content);
    move |pattern: &str, from: u64, _options: &SearchOptions, direction: SearchDirection| {
        if pattern == "[" {
            return Err(RllessError::search("invalid regex"));
        }
        let p = pattern.to_string();
        let f = move |line: &str| literal_matches(&p, line);
        match direction {
            SearchDirection::Forward => accessor.find_next_match(from, &f),
            SearchDirection::Backward => accessor.find_prev_match(from, &f),
        }
    }
}

fn highlighter(spec: &SearchHighlightSpec, line: &str) -> rlless::Result<Vec<(usize, usize)>> {
    Ok(literal_matches(&spec.pattern, line))
}

fn run(
    worker: &mut WorkerState<AdaptiveFileAccessor>,
    content: &str,
    cmd: SearchCommand,
) -> HandlerOutcome {
    let search = searcher(content);
    worker.handle_command(cmd, &search, &highlighter)
}

fn load(top: ViewportRequest, page_lines: usize) -> SearchCommand {
    SearchCommand::LoadViewport { request_id: 1, top, page_lines, highlights: None }
}

#[test]
fn empty_files_resolve_to_zero() {
    let mut worker = WorkerState::new(accessor_over(""));
    for request in [
        ViewportRequest::Absolute(10),
        ViewportRequest::RelativeLines { anchor: 25, lines: 3 },
        ViewportRequest::EndOfFile,
    ] {
        let resolved = worker.resolve_viewport_target(request, 5).unwrap();
        assert_eq!(resolved, 0);
    }
}

#[test]
fn load_viewport_returns_expected_page() {
    let content = "first\nsecond\nthird\nfourth\nfifth\n";
    let mut worker = WorkerState::new(accessor_over(content));
    let outcome = run(&mut worker, content, load(ViewportRequest::Absolute(0), 3));
    match outcome.response {
        Some(SearchResponse::ViewportLoaded { lines, highlights, at_eof, file_size, .. }) => {
            assert_eq!(lines, vec!["first", "second", "third"]);
            assert_eq!(highlights, vec![Vec::new(), Vec::new(), Vec::new()]);
            assert!(!at_eof);
            assert_eq!(file_size, content.len() as u64);
        }
        other => panic!("unexpected response: {other:?}"),
    }
    assert!(!outcome.done);
}

#[test]
fn load_viewport_marks_eof_when_past_file_end() {
    let content = "only\nthis\n";
    let mut worker = WorkerState::new(accessor_over(content));
    match run(&mut worker, content, load(ViewportRequest::Absolute(0), 10)).response {
        Some(SearchResponse::ViewportLoaded { lines, at_eof, .. }) => {
            assert_eq!(lines, vec!["only", "this"]);
            assert!(at_eof, "expected EOF flag when requesting beyond file length");
        }
        other => panic!("unexpected response: {other:?}"),
    }
}

#[test]
fn relative_scroll_stops_at_last_page() {
    let content = "line1\nline2\nline3\nline4\nline5\n";
    let mut worker = WorkerState::new(accessor_over(content));
    let first_top = match run(&mut worker, content, load(ViewportRequest::Absolute(0), 2)).response {
        Some(SearchResponse::ViewportLoaded { top_byte, .. }) => top_byte,
        other => panic!("unexpected response: {other:?}"),
    };
    assert_eq!(first_top, 0);
    let cmd = load(ViewportRequest::RelativeLines { anchor: first_top, lines: 100 }, 2);
    match run(&mut worker, content, cmd).response {
        Some(SearchResponse::ViewportLoaded { top_byte, lines, at_eof, .. }) => {
            assert_eq!(top_byte, 18);
            assert_eq!(lines, vec!["line4", "line5"]);
            assert!(at_eof);
        }
        other => panic!("unexpected response: {other:?}"),
    }
    assert_eq!(worker.resolve_viewport_target(ViewportRequest::EndOfFile, 2).unwrap(), 18);
    assert_eq!(
        worker
            .resolve_viewport_target(ViewportRequest::RelativeLines { anchor: 18, lines: -2 }, 2)
            .unwrap(),
        6
    );
}

#[test]
fn execute_search_followed_by_viewport_load() {
    let content = "alpha\nbeta error\ngamma\nerror delta\n";
    let mut worker = WorkerState::new(accessor_over(content));
    let cmd = SearchCommand::ExecuteSearch {
        request_id: 5,
        pattern: "error".to_string(),
        direction: SearchDirection::Forward,
        options: SearchOptions::default(),
        origin_byte: 0,
    };
    match run(&mut worker, content, cmd).response {
        Some(SearchResponse::SearchCompleted { request_id, match_byte, message }) => {
            assert_eq!(request_id, 5);
            assert_eq!(match_byte, Some(6));
            assert!(message.is_none());
        }
        other => panic!("unexpected response: {other:?}"),
    }
    match run(&mut worker, content, load(ViewportRequest::Absolute(6), 2)).response {
        Some(SearchResponse::ViewportLoaded { lines, highlights, .. }) => {
            assert_eq!(lines, vec!["beta error", "gamma"]);
            assert_eq!(highlights, vec![vec![(5, 10)], vec![]]);
        }
        other => panic!("unexpected response: {other:?}"),
    }
}

#[test]
fn navigate_match_advances_active_context() {
    let content = "error one\nnothing\nerror two\nerror three\n";
    let mut worker = WorkerState::new(accessor_over(content));
    run(&mut worker, content, SearchCommand::ExecuteSearch {
        request_id: 1,
        pattern: "error".to_string(),
        direction: SearchDirection::Forward,
        options: SearchOptions::default(),
        origin_byte: 0,
    });
    let next = SearchCommand::NavigateMatch {
        request_id: 2,
        traversal: MatchTraversal::Next,
        current_top: 0,
    };
    match run(&mut worker, content, next).response {
        Some(SearchResponse::SearchCompleted { match_byte, .. }) => assert_eq!(match_byte, Some(18)),
        other => panic!("unexpected response: {other:?}"),
    }
    let back = SearchCommand::NavigateMatch {
        request_id: 3,
        traversal: MatchTraversal::Previous,
        current_top: 18,
    };
    match run(&mut worker, content, back).response {
        Some(SearchResponse::SearchCompleted { match_byte, .. }) => assert_eq!(match_byte, Some(0)),
        other => panic!("unexpected response: {other:?}"),
    }
}

#[test]
fn update_context_enables_navigation_without_execute() {
    let content = "x\nneedle\n";
    let mut worker = WorkerState::new(accessor_over(content));
    let none = run(&mut worker, content, SearchCommand::NavigateMatch {
        request_id: 1,
        traversal: MatchTraversal::Next,
        current_top: 0,
    });
    match none.response {
        Some(SearchResponse::SearchCompleted { match_byte, message, .. }) => {
            assert!(match_byte.is_none());
            assert_eq!(message.as_deref(), Some("No active search"));
        }
        other => panic!("unexpected response: {other:?}"),
    }
    let ctx = SearchContext {
        pattern: "needle".to_string(),
        direction: SearchDirection::Forward,
        options: SearchOptions::default(),
        last_match_byte: None,
    };
    let outcome = run(&mut worker, content, SearchCommand::UpdateSearchContext(ctx));
    assert!(outcome.response.is_none());
    assert!(!outcome.done);
    match run(&mut worker, content, SearchCommand::NavigateMatch {
        request_id: 2,
        traversal: MatchTraversal::Next,
        current_top: 0,
    })
    .response
    {
        Some(SearchResponse::SearchCompleted { match_byte, .. }) => assert_eq!(match_byte, Some(2)),
        other => panic!("unexpected response: {other:?}"),
    }
}

#[test]
fn execute_search_with_invalid_regex_returns_error() {
    let content = "abc\n";
    let mut worker = WorkerState::new(accessor_over(content));
    let cmd = SearchCommand::ExecuteSearch {
        request_id: 9,
        pattern: "[".to_string(),
        direction: SearchDirection::Forward,
        options: SearchOptions::default(),
        origin_byte: 0,
    };
    match run(&mut worker, content, cmd).response {
        Some(SearchResponse::Error { request_id, .. }) => assert_eq!(request_id, 9),
        other => panic!("unexpected response: {other:?}"),
    }
}

#[test]
fn pattern_not_found_and_shutdown() {
    let content = "abc\n";
    let mut worker = WorkerState::new(accessor_over(content));
    match run(&mut worker, content, SearchCommand::ExecuteSearch {
        request_id: 1,
        pattern: "zzz".to_string(),
        direction: SearchDirection::Backward,
        options: SearchOptions::default(),
        origin_byte: 4,
    })
    .response
    {
        Some(SearchResponse::SearchCompleted { match_byte, message, .. }) => {
            assert!(match_byte.is_none());
            assert_eq!(message.as_deref(), Some("Pattern not found"));
        }
        other => panic!("unexpected response: {other:?}"),
    }
    let cleared = run(&mut worker, content, SearchCommand::ClearSearchContext);
    assert!(cleared.response.is_none());
    let stop = run(&mut worker, content, SearchCommand::Shutdown);
    assert!(stop.done);
    assert!(stop.response.is_none());
}

#[test]
fn handler_outcomes() {
    let r = HandlerOutcome::continue_without_response();
    assert!(r.response.is_none() && !r.done);
    let e = HandlerOutcome::exit();
    assert!(e.response.is_none() && e.done);
}

#[test]
fn shared_accessor_serves_the_worker() {
    let content = "a\nb\nc\n";
    let shared = std::sync::Arc::new(accessor_over(content));
    let mut worker = WorkerState::new(std::sync::Arc::clone(&shared));
    let search = searcher(content);
    let outcome = worker.handle_command(load(ViewportRequest::EndOfFile, 2), &search, &highlighter);
    match outcome.response {
        Some(SearchResponse::ViewportLoaded { top_byte, lines, .. }) => {
            assert_eq!(top_byte, 2);
            assert_eq!(lines, vec!["b", "c"]);
        }
        other => panic!("unexpected response: {other:?}"),
    }
    assert_eq!(shared.file_size(), 6);
    assert_eq!(worker.file_accessor().file_size(), 6);
}

#[test]
fn navigation_past_the_end_is_answered() {
    let content = "error one\nnothing\n";
    let mut worker = WorkerState::new(accessor_over(content));
    let far = 1_000_000u64;
    assert!(!worker.navigation_steps_back(MatchTraversal::Previous, far));
    match run(&mut worker, content, SearchCommand::NavigateMatch {
        request_id: 7,
        traversal: MatchTraversal::Previous,
        current_top: far,
    })
    .response
    {
        Some(SearchResponse::SearchCompleted { request_id, match_byte, message }) => {
            assert_eq!(request_id, 7);
            assert_eq!(match_byte, None);
            assert_eq!(message.as_deref(), Some("No active search"));
        }
        other => panic!("unexpected response: {other:?}"),
    }

    run(&mut worker, content, SearchCommand::ExecuteSearch {
        request_id: 8,
        pattern: "error".to_string(),
        direction: SearchDirection::Forward,
        options: SearchOptions::default(),
        origin_byte: 0,
    });
    assert!(!worker.navigation_steps_back(MatchTraversal::Next, far));
    assert!(worker.navigation_steps_back(MatchTraversal::Previous, far));
    match run(&mut worker, content, SearchCommand::NavigateMatch {
        request_id: 9,
        traversal: MatchTraversal::Next,
        current_top: far,
    })
    .response
    {
        Some(SearchResponse::SearchCompleted { request_id, match_byte, .. }) => {
            assert_eq!(request_id, 9);
            assert_eq!(match_byte, None);
        }
        other => panic!("unexpected response: {other:?}"),
    }
}
