use rlless::input::keys::{KeyCode, KeyEvent, KeyModifiers};
use rlless::input::raw::{
    Event, InputCoalescer, MouseEventKind, RawInputCollector, RawInputEvent,
    ScrollDirection as RawScrollDirection,
};
use rlless::input::{InputAction, InputService, InputState, InputStateMachine, ScrollDirection, SearchDirection};

const MS: u64 = 1_000_000;

fn key(code: KeyCode) -> Event {
    Event::Key(KeyEvent::new(code, KeyModifiers::none()))
}

fn key_event(code: KeyCode) -> KeyEvent {
    KeyEvent::new(code, KeyModifiers::none())
}

fn ctrl_char(ch: char) -> Event {
    Event::Key(KeyEvent::new(KeyCode::Char(ch), KeyModifiers::control()))
}

#[test]
fn navigation_scrolls_and_pages() {
    let mut sm = InputStateMachine::new();
    assert_eq!(
        sm.handle_key_event(key_event(KeyCode::Char('j'))),
        InputAction::Scroll {
            direction: ScrollDirection::Down,
            lines: 1,
        }
    );
    assert_eq!(
        sm.handle_key_event(key_event(KeyCode::Char('k'))),
        InputAction::Scroll {
            direction: ScrollDirection::Up,
            lines: 1,
        }
    );
}

#[test]
fn accumulates_same_direction_within_window() {
    let mut coalescer = InputCoalescer::new(10 * MS);
    assert_eq!(coalescer.push(RawScrollDirection::Down, 1, 0), None);
    assert_eq!(coalescer.push(RawScrollDirection::Down, 2, 5 * MS), None);
    assert_eq!(coalescer.flush_if_stale(10 * MS), None);
    assert_eq!(
        coalescer.flush_if_stale(16 * MS),
        Some((RawScrollDirection::Down, 3))
    );
    assert!(coalescer.is_empty());
}

#[test]
fn flushes_on_direction_change() {
    let mut coalescer = InputCoalescer::new(10 * MS);
    coalescer.push(RawScrollDirection::Up, 1, 0);
    let flushed = coalescer.push(RawScrollDirection::Down, 1, 3 * MS).unwrap();
    assert_eq!(flushed, (RawScrollDirection::Up, 1));
    assert_eq!(coalescer.flush(), Some((RawScrollDirection::Down, 1)));
    assert_eq!(coalescer.flush(), None);
}

#[test]
fn handles_resize_after_scroll() {
    let mut collector = RawInputCollector::new();

    collector.process_event(Event::Mouse(MouseEventKind::ScrollDown), 0);
    collector.process_event(Event::Resize(80, 40), 1 * MS);

    let first = collector.try_flush_coalesced(1 * MS).unwrap();
    assert!(matches!(first, RawInputEvent::Scroll { .. }));

    let second = collector.try_flush_coalesced(1 * MS).unwrap();
    assert_eq!(
        second,
        RawInputEvent::Resize {
            width: 80,
            height: 40
        }
    );
}

#[test]
fn queues_key_events() {
    let mut collector = RawInputCollector::new();
    collector.process_event(key(KeyCode::Char('j')), 0);

    let result = collector.try_flush_coalesced(0).unwrap();
    match result {
        RawInputEvent::Key(key) => assert_eq!(key.code, KeyCode::Char('j')),
        _ => panic!("expected key event"),
    }
}

#[test]
fn mouse_scrolls_are_coalesced_upstream() {
    let mut service = InputService::new();
    assert!(service
        .process_event(Event::Mouse(MouseEventKind::ScrollDown), 0)
        .is_empty());
    assert!(service
        .process_event(Event::Mouse(MouseEventKind::ScrollDown), 1 * MS)
        .is_empty());
    let actions = service.process_event(Event::Resize(80, 24), 14 * MS);

    assert_eq!(
        actions,
        vec![
            InputAction::Scroll {
                direction: ScrollDirection::Down,
                lines: 6,
            },
            InputAction::Resize {
                width: 80,
                height: 24,
            },
        ]
    );
}

#[test]
fn keyboard_events_pass_through_state_machine() {
    let mut service = InputService::new();
    let down = service.process_event(key(KeyCode::Char('j')), 0);
    let up = service.process_event(key(KeyCode::Char('k')), 0);

    assert_eq!(
        down,
        vec![InputAction::Scroll {
            direction: ScrollDirection::Down,
            lines: 1,
        }]
    );
    assert_eq!(
        up,
        vec![InputAction::Scroll {
            direction: ScrollDirection::Up,
            lines: 1,
        }]
    );
}

#[test]
fn poll_actions_flushes_pending_events() {
    let mut service = InputService::new();
    assert!(service
        .accept_polled_event(Event::Mouse(MouseEventKind::ScrollUp), 0)
        .is_none());
    let ready = service.take_ready_event(13 * MS).unwrap();
    let actions = service.actions_after(ready, 13 * MS);

    assert_eq!(
        actions,
        vec![InputAction::Scroll {
            direction: ScrollDirection::Up,
            lines: 3,
        }]
    );
}

#[test]
fn mixed_events_preserve_order() {
    let mut service = InputService::new();
    assert!(service
        .process_event(Event::Mouse(MouseEventKind::ScrollUp), 0)
        .is_empty());
    let actions = service.process_event(key(KeyCode::Char('j')), 13 * MS);

    assert_eq!(
        actions,
        vec![
            InputAction::Scroll {
                direction: ScrollDirection::Up,
                lines: 3,
            },
            InputAction::Scroll {
                direction: ScrollDirection::Down,
                lines: 1,
            },
        ]
    );
}

#[test]
fn percent_jump_emits_action() {
    let mut service = InputService::new();

    assert_eq!(
        service.process_event(key(KeyCode::Char('%')), 0),
        vec![InputAction::StartPercentInput]
    );
    assert_eq!(
        service.process_event(key(KeyCode::Char('5')), 0),
        vec![InputAction::UpdatePercentBuffer("5".to_string())]
    );
    assert_eq!(
        service.process_event(key(KeyCode::Char('0')), 0),
        vec![InputAction::UpdatePercentBuffer("50".to_string())]
    );
    assert_eq!(
        service.process_event(key(KeyCode::Enter), 0),
        vec![InputAction::SubmitPercent(50)]
    );
}

#[test]
fn percent_jump_backspace_cancels_when_empty() {
    let mut service = InputService::new();

    assert_eq!(
        service.process_event(key(KeyCode::Char('%')), 0),
        vec![InputAction::StartPercentInput]
    );
    assert_eq!(
        service.process_event(key(KeyCode::Char('1')), 0),
        vec![InputAction::UpdatePercentBuffer("1".to_string())]
    );
    assert_eq!(
        service.process_event(key(KeyCode::Backspace), 0),
        vec![InputAction::UpdatePercentBuffer(String::new())]
    );
    assert_eq!(
        service.process_event(key(KeyCode::Backspace), 0),
        vec![InputAction::CancelPercentInput]
    );
}

#[test]
fn percent_jump_ctrl_c_cancels() {
    let mut service = InputService::new();

    assert_eq!(
        service.process_event(key(KeyCode::Char('%')), 0),
        vec![InputAction::StartPercentInput]
    );
    assert_eq!(
        service.process_event(key(KeyCode::Char('2')), 0),
        vec![InputAction::UpdatePercentBuffer("2".to_string())]
    );
    assert_eq!(
        service.process_event(ctrl_char('c'), 0),
        vec![InputAction::CancelPercentInput]
    );
}

#[test]
fn percent_jump_escape_cancels() {
    let mut service = InputService::new();

    assert_eq!(
        service.process_event(key(KeyCode::Char('%')), 0),
        vec![InputAction::StartPercentInput]
    );
    assert_eq!(
        service.process_event(key(KeyCode::Esc), 0),
        vec![InputAction::CancelPercentInput]
    );
}

#[test]
fn search_history_navigation_allows_recall() {
    let mut service = InputService::new();

    service.process_event(key(KeyCode::Char('/')), 0);
    service.process_event(key(KeyCode::Char('f')), 0);
    service.process_event(key(KeyCode::Enter), 0);

    service.process_event(key(KeyCode::Char('/')), 0);
    service.process_event(key(KeyCode::Char('b')), 0);
    service.process_event(key(KeyCode::Char('a')), 0);
    service.process_event(key(KeyCode::Char('r')), 0);
    service.process_event(key(KeyCode::Enter), 0);

    assert_eq!(
        service.process_event(key(KeyCode::Char('/')), 0),
        vec![InputAction::StartSearch(SearchDirection::Forward)]
    );
    assert_eq!(
        service.process_event(key(KeyCode::Up), 0),
        vec![InputAction::UpdateSearchBuffer {
            direction: SearchDirection::Forward,
            buffer: "bar".to_string(),
        }]
    );
    assert_eq!(
        service.process_event(key(KeyCode::Up), 0),
        vec![InputAction::UpdateSearchBuffer {
            direction: SearchDirection::Forward,
            buffer: "f".to_string(),
        }]
    );
    assert_eq!(
        service.process_event(key(KeyCode::Down), 0),
        vec![InputAction::UpdateSearchBuffer {
            direction: SearchDirection::Forward,
            buffer: "bar".to_string(),
        }]
    );
    assert_eq!(
        service.process_event(key(KeyCode::Down), 0),
        vec![InputAction::UpdateSearchBuffer {
            direction: SearchDirection::Forward,
            buffer: String::new(),
        }]
    );
    assert_eq!(
        service.process_event(key(KeyCode::Char('z')), 0),
        vec![InputAction::UpdateSearchBuffer {
            direction: SearchDirection::Forward,
            buffer: "z".to_string(),
        }]
    );
    assert_eq!(
        service.process_event(key(KeyCode::Up), 0),
        vec![InputAction::UpdateSearchBuffer {
            direction: SearchDirection::Forward,
            buffer: "bar".to_string(),
        }]
    );
}

#[test]
fn command_mode_updates_buffer_and_executes() {
    let mut service = InputService::new();

    assert_eq!(
        service.process_event(key(KeyCode::Char('-')), 0),
        vec![InputAction::StartCommand]
    );
    assert_eq!(
        service.process_event(key(KeyCode::Char('i')), 0),
        vec![InputAction::UpdateCommandBuffer("i".to_string())]
    );
    assert_eq!(
        service.process_event(key(KeyCode::Backspace), 0),
        vec![InputAction::UpdateCommandBuffer(String::new())]
    );
    assert_eq!(
        service.process_event(key(KeyCode::Char('r')), 0),
        vec![InputAction::UpdateCommandBuffer("r".to_string())]
    );
    assert_eq!(
        service.process_event(key(KeyCode::Enter), 0),
        vec![InputAction::ExecuteCommand {
            buffer: "r".to_string(),
        }]
    );
}

#[test]
fn command_mode_cancel_clears_buffer() {
    let mut service = InputService::new();

    assert_eq!(
        service.process_event(key(KeyCode::Char('-')), 0),
        vec![InputAction::StartCommand]
    );
    assert_eq!(
        service.process_event(key(KeyCode::Char('w')), 0),
        vec![InputAction::UpdateCommandBuffer("w".to_string())]
    );
    assert_eq!(
        service.process_event(key(KeyCode::Esc), 0),
        vec![InputAction::CancelCommand]
    );
}

#[test]
fn command_mode_backspace_when_empty_exits() {
    let mut service = InputService::new();

    assert_eq!(
        service.process_event(key(KeyCode::Char('-')), 0),
        vec![InputAction::StartCommand]
    );
    assert_eq!(
        service.process_event(key(KeyCode::Backspace), 0),
        vec![InputAction::CancelCommand]
    );
    assert_eq!(
        service.process_event(key(KeyCode::Char('-')), 0),
        vec![InputAction::StartCommand]
    );
}

#[test]
fn search_prompt_collects_and_executes() {
    let mut sm = InputStateMachine::new();
    assert_eq!(
        sm.handle_key_event(key_event(KeyCode::Char('?'))),
        InputAction::StartSearch(SearchDirection::Backward)
    );
    assert_eq!(
        sm.get_state(),
        InputState::SearchInput { direction: SearchDirection::Backward }
    );
    sm.handle_key_event(key_event(KeyCode::Char('x')));
    assert_eq!(sm.get_search_buffer(), "x");
    assert_eq!(
        sm.handle_key_event(key_event(KeyCode::Enter)),
        InputAction::ExecuteSearch {
            pattern: "x".to_string(),
            direction: SearchDirection::Backward,
        }
    );
    assert_eq!(sm.get_state(), InputState::Navigation);
}

#[test]
fn percent_is_capped_at_one_hundred_and_three_digits() {
    let mut sm = InputStateMachine::new();
    sm.handle_key_event(key_event(KeyCode::Char('%')));
    for ch in ['1', '5', '0', '7'] {
        sm.handle_key_event(key_event(KeyCode::Char(ch)));
    }
    assert_eq!(sm.handle_key_event(key_event(KeyCode::Enter)), InputAction::SubmitPercent(100));
    sm.handle_key_event(key_event(KeyCode::Char('%')));
    assert_eq!(
        sm.handle_key_event(key_event(KeyCode::Enter)),
        InputAction::CancelPercentInput
    );
    assert_eq!(sm.get_state(), InputState::Navigation);
}

#[test]
fn ctrl_c_cancels_every_prompt_and_quits_navigation() {
    let ctrl_c = KeyEvent::new(KeyCode::Char('c'), KeyModifiers::control());
    let mut sm = InputStateMachine::new();

    sm.handle_key_event(key_event(KeyCode::Char('/')));
    sm.handle_key_event(key_event(KeyCode::Char('a')));
    assert_eq!(sm.handle_key_event(ctrl_c.clone()), InputAction::CancelSearch);
    assert_eq!(sm.get_state(), InputState::Navigation);

    sm.handle_key_event(key_event(KeyCode::Char('-')));
    assert_eq!(sm.handle_key_event(ctrl_c.clone()), InputAction::CancelCommand);
    assert_eq!(sm.get_state(), InputState::Navigation);

    sm.handle_key_event(key_event(KeyCode::Char('%')));
    sm.handle_key_event(key_event(KeyCode::Char('4')));
    assert_eq!(sm.handle_key_event(ctrl_c.clone()), InputAction::CancelPercentInput);
    assert_eq!(sm.get_state(), InputState::Navigation);

    assert_eq!(sm.handle_key_event(ctrl_c), InputAction::Quit);
    assert_eq!(sm.get_state(), InputState::Navigation);
}

#[test]
fn backspace_on_empty_prompt_returns_to_navigation() {
    let mut sm = InputStateMachine::new();
    sm.handle_key_event(key_event(KeyCode::Char('?')));
    assert_eq!(sm.handle_key_event(key_event(KeyCode::Backspace)), InputAction::CancelSearch);
    assert_eq!(sm.get_state(), InputState::Navigation);

    sm.handle_key_event(key_event(KeyCode::Char('-')));
    assert_eq!(sm.handle_key_event(key_event(KeyCode::Backspace)), InputAction::CancelCommand);
    assert_eq!(sm.get_state(), InputState::Navigation);

    sm.handle_key_event(key_event(KeyCode::Char('%')));
    assert_eq!(
        sm.handle_key_event(key_event(KeyCode::Backspace)),
        InputAction::CancelPercentInput
    );
    assert_eq!(sm.get_state(), InputState::Navigation);
}

#[test]
fn repeated_search_is_recorded_once() {
    let mut sm = InputStateMachine::new();
    for pattern in ["a", "b", "b"] {
        sm.handle_key_event(key_event(KeyCode::Char('/')));
        sm.handle_key_event(key_event(KeyCode::Char(pattern.chars().next().unwrap())));
        sm.handle_key_event(key_event(KeyCode::Enter));
    }
    sm.handle_key_event(key_event(KeyCode::Char('/')));
    sm.handle_key_event(key_event(KeyCode::Up));
    assert_eq!(sm.get_search_buffer(), "b");
    sm.handle_key_event(key_event(KeyCode::Up));
    assert_eq!(sm.get_search_buffer(), "a");
}

#[test]
fn same_direction_ticks_saturate_at_the_maximum() {
    let mut coalescer = InputCoalescer::new(10 * MS);
    assert_eq!(coalescer.push(RawScrollDirection::Down, u64::MAX - 1, 0), None);
    assert_eq!(coalescer.push(RawScrollDirection::Down, 5, MS), None);
    assert_eq!(coalescer.push(RawScrollDirection::Down, 1, 2 * MS), None);
    assert_eq!(coalescer.flush(), Some((RawScrollDirection::Down, u64::MAX)));
}
