use rlless::input::SearchDirection;
use rlless::ui::state::{DisplayMode, PositionLabel, StatusLine, ViewState};
use std::path::PathBuf;

/// The status line as the viewer shows it: the position label, with the percentage
/// rounded to a whole number.
fn format_status_line(
    status: &StatusLine,
    filename: &str,
    current_byte: u64,
    total_bytes: u64,
    at_eof: bool,
) -> String {
    let label = StatusLine::position_label(current_byte, total_bytes, at_eof);
    let percent_text = match label {
        PositionLabel::Percent { current, total } => {
            let percentage = (current as f32 / total as f32) * 100.0;
            format!("{:.0}%", percentage)
        }
        _ => String::new(),
    };
    let position = label.text(percent_text);
    status.compose(filename, &position)
}

#[test]
fn test_view_state_creation() {
    let path = PathBuf::from("/test/file.log");
    let state = ViewState::new(path.clone(), 80, 24);

    assert_eq!(state.viewport_top_byte, 0);
    assert_eq!(state.visible_lines.len(), 0);
    assert_eq!(state.file_path, path);
    assert_eq!(state.viewport_width, 80);
    assert_eq!(state.viewport_height, 24);
    assert!(state.file_size.is_none());
}

#[test]
fn test_viewport_navigation() {
    let path = PathBuf::from("/test/file.log");
    let mut state = ViewState::new(path, 80, 24);

    state.navigate_to_byte(1000);
    assert_eq!(state.viewport_top_byte, 1000);

    state.navigate_to_byte(2048);
    assert_eq!(state.viewport_top_byte, 2048);
}

#[test]
fn test_display_mode() {
    assert_eq!(DisplayMode::Normal.indicator(), "");
    assert_eq!(
        DisplayMode::Search(SearchDirection::Forward).indicator(),
        "/"
    );
    assert_eq!(
        DisplayMode::Search(SearchDirection::Backward).indicator(),
        "?"
    );
    assert_eq!(DisplayMode::Command.indicator(), ":");
    assert_eq!(DisplayMode::Help.indicator(), "HELP");

    assert!(DisplayMode::Search(SearchDirection::Forward).accepts_input());
    assert!(DisplayMode::Command.accepts_input());
    assert!(!DisplayMode::Normal.accepts_input());
}

#[test]
fn test_status_line_format() {
    let mut status = StatusLine::new();

    let formatted = format_status_line(&status, "test.log", 512, 1024, false);
    assert_eq!(formatted, "test.log | 50%");

    status.set_message("Pattern not found".to_string());
    let formatted = format_status_line(&status, "test.log", 512, 1024, false);
    assert_eq!(formatted, "test.log | 50% | Pattern not found");

    let formatted = format_status_line(&status, "empty.log", 0, 0, false);
    assert_eq!(formatted, "empty.log | Empty | Pattern not found");

    status.clear_message();
    let formatted = format_status_line(&status, "test.log", 1024, 1024, false);
    assert_eq!(formatted, "test.log | END");

    status.set_search_prompt(SearchDirection::Forward);
    let formatted = format_status_line(&status, "test.log", 512, 1024, false);
    assert_eq!(formatted, "/");

    status.update_search_prompt(SearchDirection::Forward, "search term".to_string());
    let formatted = format_status_line(&status, "test.log", 512, 1024, false);
    assert_eq!(formatted, "/search term");

    status.clear_search_prompt();
    let formatted = format_status_line(&status, "test.log", 512, 1024, true);
    assert_eq!(formatted, "test.log | EOD");
}

#[test]
fn test_terminal_resize() {
    let path = PathBuf::from("/test/file.log");
    let mut state = ViewState::new(path, 80, 24);

    state.visible_lines = vec!["line1".to_string(), "line2".to_string()];
    state.search_highlights = vec![vec![(0, 4)], vec![]];

    assert!(!state.update_terminal_size(80, 24));
    assert_eq!(state.viewport_width, 80);
    assert_eq!(state.viewport_height, 24);
    assert_eq!(state.visible_lines.len(), 2);
    assert_eq!(state.search_highlights.len(), 2);

    assert!(state.update_terminal_size(120, 30));
    assert_eq!(state.viewport_width, 120);
    assert_eq!(state.viewport_height, 30);
    assert_eq!(state.visible_lines.len(), 0);
    assert_eq!(state.search_highlights.len(), 0);
    assert!(!state.at_eof);

    state.visible_lines = vec!["test".to_string()];
    assert!(state.update_terminal_size(100, 30));
    assert_eq!(state.visible_lines.len(), 0);

    state.visible_lines = vec!["test".to_string()];
    assert!(state.update_terminal_size(100, 25));
    assert_eq!(state.visible_lines.len(), 0);
}

#[test]
fn position_labels() {
    assert_eq!(StatusLine::position_label(0, 0, true), PositionLabel::Empty);
    assert_eq!(StatusLine::position_label(5, 10, true), PositionLabel::EndOfData);
    assert_eq!(StatusLine::position_label(11, 10, false), PositionLabel::End);
    assert_eq!(
        StatusLine::position_label(3, 10, false),
        PositionLabel::Percent { current: 3, total: 10 }
    );
    assert_eq!(PositionLabel::End.text("x".to_string()), "END");
    assert_eq!(
        PositionLabel::Percent { current: 3, total: 10 }.text("30%".to_string()),
        "30%"
    );
}

#[test]
fn page_size_and_filename() {
    let state = ViewState::new(PathBuf::from("/var/log/app.log"), 80, 24);
    assert_eq!(state.lines_per_page(), 23);
    assert_eq!(state.filename(), "app.log");
    assert_eq!(state.viewport_line_count(), 0);
    let tiny = ViewState::new(PathBuf::from("/"), 80, 0);
    assert_eq!(tiny.lines_per_page(), 0);
    assert_eq!(tiny.filename(), "<unnamed>");
}

#[test]
fn backward_prompt_shows_question_mark() {
    let mut status = StatusLine::new();
    status.update_search_prompt(SearchDirection::Backward, "err".to_string());
    assert_eq!(status.compose("x.log", "10%"), "?err");
}

#[test]
fn view_status_line_text() {
    let mut state = ViewState::new(PathBuf::from("/var/log/app.log"), 80, 24);
    assert_eq!(state.status_line_text("42%".to_string()), "app.log | Empty");
    state.file_size = Some(200);
    state.viewport_top_byte = 50;
    assert_eq!(state.status_line_text("25%".to_string()), "app.log | 25%");
    state.status_line.message = Some("Pattern not found".to_string());
    state.at_eof = true;
    assert_eq!(state.status_line_text("25%".to_string()), "app.log | EOD | Pattern not found");
    state.status_line.search_prompt = Some((SearchDirection::Forward, "err".to_string()));
    assert_eq!(state.status_line_text("25%".to_string()), "/err");
}
