use rlless::input::raw::MouseEventKind;
use rlless::input::{InputAction, ScrollDirection};
use rlless::ui::events::MouseThrottle;

#[test]
fn test_mouse_throttle() {
    let mut throttle = MouseThrottle::new();

    let action = throttle.handle_event(MouseEventKind::ScrollUp, 1_000_000_000);
    assert_eq!(
        action,
        Some(InputAction::Scroll { direction: ScrollDirection::Up, lines: 3 })
    );

    let action = throttle.handle_event(MouseEventKind::ScrollUp, 1_000_000_000);
    assert!(action.is_none());

    let action = throttle.handle_event(MouseEventKind::ScrollDown, 1_100_000_000);
    assert_eq!(
        action,
        Some(InputAction::Scroll { direction: ScrollDirection::Down, lines: 3 })
    );
    assert!(throttle.handle_event(MouseEventKind::Other, 5_000_000_000).is_none());
}
