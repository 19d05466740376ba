//! Application events and the throttling of mouse-wheel scrolling.
//!
//! Times are plain nanosecond timestamps on the caller's monotonic clock.

use crate::input::raw::MouseEventKind;
use crate::input::service::{ActionView, InputAction, ScrollDirection};
use vstd::prelude::*;

verus! {

/// Events delivered to the application loop.
#[derive(Debug, Clone)]
pub enum AppEvent {
    /// A user action.
    Input(InputAction),
    /// Periodic update.
    Tick,
    /// Redraw request.
    Render,
    /// Terminal resize.
    Resize { width: u16, height: u16 },
    /// Shutdown.
    Quit,
}

/// Minimum time between two accepted wheel scrolls: 100 ms.
pub const MOUSE_THROTTLE_NANOS: u64 = 100_000_000u64;

/// Lines moved by an accepted wheel scroll.
pub const THROTTLED_SCROLL_LINES: u64 = 3u64;

/// Drops wheel scrolls that follow the last accepted one too closely.
#[derive(Debug, Clone)]
pub struct MouseThrottle {
    last_scroll_time: Option<u64>,
    throttle_duration: u64,
}

impl MouseThrottle {
    /// When the last scroll was accepted.
    pub closed spec fn last_accepted(&self) -> Option<u64> {
        self.last_scroll_time
    }

    /// The minimum time between accepted scrolls.
    pub closed spec fn min_gap(&self) -> u64 {
        self.throttle_duration
    }

    /// A scroll at `now` is dropped: one was accepted less than the minimum gap before.
    pub open spec fn throttles(&self, now: u64) -> bool {
        match self.last_accepted() {
            Some(t) => now.saturating_sub(t) < self.min_gap(),
            None => false,
        }
    }

    /// A throttle with the 100 ms gap and no scroll accepted yet.
    pub fn new() -> (r: Self)
        ensures
            r.last_accepted() is None,
            r.min_gap() == MOUSE_THROTTLE_NANOS,
    {
        MouseThrottle { last_scroll_time: None, throttle_duration: MOUSE_THROTTLE_NANOS }
    }

    /// Accept or drop a mouse event at `now`: an accepted wheel scroll becomes a scroll of
    /// three lines in its direction; other mouse events give nothing.
    pub fn handle_event(&mut self, kind: MouseEventKind, now: u64) -> (r: Option<InputAction>)
        ensures
            final(self).min_gap() == old(self).min_gap(),
            kind == MouseEventKind::Other ==> r is None && *final(self) == *old(self),
            kind != MouseEventKind::Other && old(self).throttles(now) ==> r is None
                && *final(self) == *old(self),
            kind != MouseEventKind::Other && !old(self).throttles(now) ==> {
                &&& final(self).last_accepted() == Some(now)
                &&& r matches Some(a) && a@ == ActionView::Scroll {
                    direction: if kind == MouseEventKind::ScrollUp {
                        ScrollDirection::Up
                    } else {
                        ScrollDirection::Down
                    },
                    lines: THROTTLED_SCROLL_LINES,
                }
            },
    {
        let direction = match kind {
            MouseEventKind::ScrollUp => ScrollDirection::Up,
            MouseEventKind::ScrollDown => ScrollDirection::Down,
            MouseEventKind::Other => return None,
        };
        if self.should_throttle(now) {
            return None;
        }
        self.update_time(now);
        Some(InputAction::Scroll { direction, lines: THROTTLED_SCROLL_LINES })
    }

    fn should_throttle(&self, now: u64) -> (r: bool)
        ensures
            r == self.throttles(now),
    {
        match self.last_scroll_time {
            Some(last_time) => now.saturating_sub(last_time) < self.throttle_duration,
            None => false,
        }
    }

    fn update_time(&mut self, now: u64)
        ensures
            final(self).last_accepted() == Some(now),
            final(self).min_gap() == old(self).min_gap(),
    {
        self.last_scroll_time = Some(now);
    }
}

} // verus!
