//! Raw terminal events: mouse-wheel coalescing and the queue of primitive events that
//! the input service consumes.
//!
//! Times are plain nanosecond timestamps on the caller's monotonic clock; the caller
//! reads the clock and hands the reading in.

use crate::input::keys::KeyEvent;
use vstd::prelude::*;

verus! {

/// Default coalescing window: 12 ms.
pub const DEFAULT_COALESCE_WINDOW_NANOS: u64 = 12_000_000u64;

/// Lines moved by one mouse-wheel tick.
pub const MOUSE_SCROLL_LINES: u64 = 3u64;

/// Poll timeout used when the caller gives none: 50 ms.
pub const DEFAULT_POLL_TIMEOUT_NANOS: u64 = 50_000_000u64;

/// Direction of a coalesced scroll.
#[derive(Debug, Clone, Copy, PartialEq, Eq, Structural)]
pub enum ScrollDirection {
    Up,
    Down,
}

/// Mouse event kinds that the collector distinguishes.
#[derive(Debug, Clone, Copy, PartialEq, Eq, Structural)]
pub enum MouseEventKind {
    ScrollUp,
    ScrollDown,
    /// Clicks, drags, moves and horizontal scrolls.
    Other,
}

/// A terminal event as the collector reads it.
#[derive(Debug, Clone, Copy, PartialEq, Eq, Structural)]
pub enum Event {
    Key(KeyEvent),
    Resize(u16, u16),
    Mouse(MouseEventKind),
    /// Focus changes, pastes and other events the viewer ignores.
    Other,
}

/// Events surfaced by the raw input collector.
#[derive(Debug, Clone, Copy, PartialEq, Eq, Structural)]
pub enum RawInputEvent {
    Key(KeyEvent),
    Resize { width: u16, height: u16 },
    Scroll { direction: ScrollDirection, lines: u64 },
}

/// Scroll lines accumulated in one direction, with the time of the latest tick.
#[derive(Debug, Clone, Copy, PartialEq, Eq, Structural)]
pub struct PendingScroll {
    pub direction: ScrollDirection,
    pub lines: u64,
    pub last_event: u64,
}

/// The pending scroll after a tick of `lines` in `direction` at `now`, and the scroll
/// the tick pushes out: ticks in the same direction add up (saturating), a tick in the
/// other direction starts a new accumulation and flushes the old one.
pub open spec fn coalesce_push(
    pending: Option<PendingScroll>,
    direction: ScrollDirection,
    lines: u64,
    now: u64,
) -> (Option<PendingScroll>, Option<(ScrollDirection, u64)>) {
    let fresh = PendingScroll { direction, lines, last_event: now };
    match pending {
        None => (Some(fresh), None),
        Some(p) => if p.direction == direction {
            (
                Some(
                    PendingScroll {
                        lines: p.lines.saturating_add(lines),
                        last_event: now,
                        ..p
                    },
                ),
                None,
            )
        } else {
            (Some(fresh), Some((p.direction, p.lines)))
        },
    }
}

/// A pending scroll whose latest tick is at least `window` old at `now`.
pub open spec fn is_stale(pending: Option<PendingScroll>, window: u64, now: u64) -> bool {
    match pending {
        Some(p) => now.saturating_sub(p.last_event) >= window,
        None => false,
    }
}

/// Aggregates high-frequency scroll events into larger steps.
#[derive(Debug, Clone)]
pub struct InputCoalescer {
    window: u64,
    pending: Option<PendingScroll>,
}

impl InputCoalescer {
    /// Length of the coalescing window, in nanoseconds.
    pub closed spec fn window_len(&self) -> u64 {
        self.window
    }

    /// The scroll accumulated so far.
    pub closed spec fn pending_scroll(&self) -> Option<PendingScroll> {
        self.pending
    }

    /// A coalescer with a window of `window` nanoseconds and nothing pending.
    pub fn new(window: u64) -> (r: Self)
        ensures
            r.window_len() == window,
            r.pending_scroll() is None,
    {
        InputCoalescer { window, pending: None }
    }

    /// A coalescer with the default 12 ms window.
    pub fn with_default_window() -> (r: Self)
        ensures
            r.window_len() == DEFAULT_COALESCE_WINDOW_NANOS,
            r.pending_scroll() is None,
    {
        Self::new(DEFAULT_COALESCE_WINDOW_NANOS)
    }

    /// Register a scroll tick at `now`, returning any previously queued scroll that the
    /// tick pushes out.
    pub fn push(&mut self, direction: ScrollDirection, lines: u64, now: u64) -> (r: Option<
        (ScrollDirection, u64),
    >)
        ensures
            final(self).window_len() == old(self).window_len(),
            (final(self).pending_scroll(), r) == coalesce_push(
                old(self).pending_scroll(),
                direction,
                lines,
                now,
            ),
    {
        match self.pending {
            None => {
                self.pending = Some(PendingScroll { direction, lines, last_event: now });
                None
            },
            Some(pending) => {
                if pending.direction == direction {
                    self.pending = Some(
                        PendingScroll {
                            direction: pending.direction,
                            lines: pending.lines.saturating_add(lines),
                            last_event: now,
                        },
                    );
                    None
                } else {
                    let flushed = self.flush();
                    self.pending = Some(PendingScroll { direction, lines, last_event: now });
                    flushed
                }
            },
        }
    }

    /// Flush the accumulated scroll if the window has passed since its latest tick.
    pub fn flush_if_stale(&mut self, now: u64) -> (r: Option<(ScrollDirection, u64)>)
        ensures
            final(self).window_len() == old(self).window_len(),
            is_stale(old(self).pending_scroll(), old(self).window_len(), now) ==> {
                &&& final(self).pending_scroll() is None
                &&& r == Some(
                    (
                        old(self).pending_scroll()->Some_0.direction,
                        old(self).pending_scroll()->Some_0.lines,
                    ),
                )
            },
            !is_stale(old(self).pending_scroll(), old(self).window_len(), now) ==> {
                &&& final(self).pending_scroll() == old(self).pending_scroll()
                &&& r is None
            },
    {
        if let Some(pending) = self.pending {
            if now.saturating_sub(pending.last_event) >= self.window {
                return self.flush();
            }
        }
        None
    }

    /// Flush the accumulated scroll immediately.
    pub fn flush(&mut self) -> (r: Option<(ScrollDirection, u64)>)
        ensures
            final(self).window_len() == old(self).window_len(),
            final(self).pending_scroll() is None,
            r == match old(self).pending_scroll() {
                Some(p) => Some((p.direction, p.lines)),
                None => None,
            },
    {
        match self.pending.take() {
            Some(pending) => Some((pending.direction, pending.lines)),
            None => None,
        }
    }

    /// Nothing is waiting to be flushed.
    pub fn is_empty(&self) -> (r: bool)
        ensures
            r == (self.pending_scroll() is None),
    {
        self.pending.is_none()
    }
}

/// A scroll tick for a wheel event, if the event is one.
pub open spec fn wheel_direction(kind: MouseEventKind) -> Option<ScrollDirection> {
    match kind {
        MouseEventKind::ScrollUp => Some(ScrollDirection::Up),
        MouseEventKind::ScrollDown => Some(ScrollDirection::Down),
        MouseEventKind::Other => None,
    }
}

/// The queued events and the pending scroll after the collector takes in `event` at
/// `now`: keys are queued; a resize first flushes the pending scroll, then is queued; a
/// wheel tick goes to the coalescer, and what it pushes out is queued; the rest is
/// dropped.
pub open spec fn enqueue_step(
    queue: Seq<RawInputEvent>,
    pending: Option<PendingScroll>,
    event: Event,
    now: u64,
) -> (Seq<RawInputEvent>, Option<PendingScroll>) {
    match event {
        Event::Key(k) => (queue.push(RawInputEvent::Key(k)), pending),
        Event::Resize(w, h) => {
            let flushed = match pending {
                Some(p) => queue.push(
                    RawInputEvent::Scroll { direction: p.direction, lines: p.lines },
                ),
                None => queue,
            };
            (flushed.push(RawInputEvent::Resize { width: w, height: h }), None)
        },
        Event::Mouse(kind) => match wheel_direction(kind) {
            Some(d) => {
                let (p2, out) = coalesce_push(pending, d, MOUSE_SCROLL_LINES, now);
                match out {
                    Some((fd, fl)) => (
                        queue.push(RawInputEvent::Scroll { direction: fd, lines: fl }),
                        p2,
                    ),
                    None => (queue, p2),
                }
            },
            None => (queue, pending),
        },
        Event::Other => (queue, pending),
    }
}

/// Wheel ticks in one direction add up (saturating) while they keep coming, and push
/// nothing out.
pub proof fn law_same_direction_ticks_add_up(direction: ScrollDirection, a: u64, b: u64, t1: u64, t2: u64)
    ensures
        ({
            let (p1, out1) = coalesce_push(None, direction, a, t1);
            let (p2, out2) = coalesce_push(p1, direction, b, t2);
            &&& out1 is None
            &&& out2 is None
            &&& p2 == Some(PendingScroll { direction, lines: a.saturating_add(b), last_event: t2 })
        }),
{
}

/// The pending scroll after the ticks `(lines, time)` of `ticks`, in order, all in
/// `direction`, starting from `pending`.
pub open spec fn after_ticks(
    pending: Option<PendingScroll>,
    direction: ScrollDirection,
    ticks: Seq<(u64, u64)>,
) -> Option<PendingScroll>
    decreases ticks.len(),
{
    if ticks.len() == 0 {
        pending
    } else {
        coalesce_push(
            after_ticks(pending, direction, ticks.drop_last()),
            direction,
            ticks.last().0,
            ticks.last().1,
        ).0
    }
}

/// The total number of lines of `ticks`.
pub open spec fn ticks_total(ticks: Seq<(u64, u64)>) -> nat
    decreases ticks.len(),
{
    if ticks.len() == 0 {
        0
    } else {
        ticks_total(ticks.drop_last()) + ticks.last().0 as nat
    }
}

/// `total` capped at `u64::MAX`.
pub open spec fn saturated(total: nat) -> u64 {
    if total > u64::MAX {
        u64::MAX
    } else {
        total as u64
    }
}

/// Any number of wheel ticks in one direction, starting from nothing pending, push
/// nothing out and leave the same pending scroll as one tick of their total (saturating
/// at `u64::MAX`) at the time of the last: coalescing keeps the net scroll distance.
pub proof fn law_ticks_coalesce_to_their_sum(direction: ScrollDirection, ticks: Seq<(u64, u64)>)
    requires
        ticks.len() >= 1,
    ensures
        forall|i: int|
            0 <= i < ticks.len() ==> (#[trigger] coalesce_push(
                after_ticks(None, direction, ticks.take(i)),
                direction,
                ticks[i].0,
                ticks[i].1,
            )).1 is None,
        after_ticks(None, direction, ticks) == coalesce_push(
            None,
            direction,
            saturated(ticks_total(ticks)),
            ticks.last().1,
        ).0,
    decreases ticks.len(),
{
    let n = ticks.len() as int;
    let init = ticks.drop_last();
    assert(ticks.take(n - 1) =~= init);
    if n == 1 {
        assert(init.len() == 0);
        assert(ticks_total(ticks) == ticks[0].0);
        assert forall|i: int|
            0 <= i < ticks.len() implies (#[trigger] coalesce_push(
            after_ticks(None, direction, ticks.take(i)),
            direction,
            ticks[i].0,
            ticks[i].1,
        )).1 is None by {
            assert(ticks.take(0).len() == 0);
        }
    } else {
        law_ticks_coalesce_to_their_sum(direction, init);
        let prev = saturated(ticks_total(init));
        let x = ticks.last().0;
        assert(ticks_total(ticks) == ticks_total(init) + x);
        assert(prev.saturating_add(x) == saturated(ticks_total(ticks))) by {
            if prev + x > u64::MAX {
                assert(prev.saturating_add(x) == u64::MAX);
            } else {
                assert(prev.saturating_add(x) == prev + x);
            }
        }
        assert forall|i: int|
            0 <= i < ticks.len() implies (#[trigger] coalesce_push(
            after_ticks(None, direction, ticks.take(i)),
            direction,
            ticks[i].0,
            ticks[i].1,
        )).1 is None by {
            if i < n - 1 {
                assert(ticks.take(i) =~= init.take(i));
                assert(ticks[i] == init[i]);
                assert(coalesce_push(
                    after_ticks(None, direction, init.take(i)),
                    direction,
                    init[i].0,
                    init[i].1,
                ).1 is None);
            } else {
                assert(ticks.take(i) =~= init);
            }
        }
    }
}

/// A tick in the other direction pushes the accumulated scroll out and starts anew.
pub proof fn law_direction_change_flushes(pending: PendingScroll, direction: ScrollDirection, lines: u64, now: u64)
    requires
        direction != pending.direction,
    ensures
        coalesce_push(Some(pending), direction, lines, now) == (
            Some(PendingScroll { direction, lines, last_event: now }),
            Some((pending.direction, pending.lines)),
        ),
{
}

/// Taking in an event never reorders or drops what was already queued: the old queue
/// stays a prefix of the new one.
pub proof fn law_queue_keeps_arrival_order(
    queue: Seq<RawInputEvent>,
    pending: Option<PendingScroll>,
    event: Event,
    now: u64,
)
    ensures
        enqueue_step(queue, pending, event, now).0.len() >= queue.len(),
        enqueue_step(queue, pending, event, now).0.take(queue.len() as int) == queue,
{
    let q2 = enqueue_step(queue, pending, event, now).0;
    match event {
        Event::Resize(w, h) => {
            match pending {
                Some(p) => {
                    assert(q2.take(queue.len() as int) =~= queue);
                },
                None => {
                    assert(q2.take(queue.len() as int) =~= queue);
                },
            }
        },
        _ => {
            assert(q2.take(queue.len() as int) =~= queue);
        },
    }
}

/// Collector that queues primitive events and coalesces wheel scrolling.
#[derive(Debug)]
pub struct RawInputCollector {
    coalescer: InputCoalescer,
    pending_events: std::collections::VecDeque<RawInputEvent>,
}

impl RawInputCollector {
    /// Events waiting to be taken, oldest first.
    pub closed spec fn queue(&self) -> Seq<RawInputEvent> {
        self.pending_events@
    }

    /// The scroll accumulated by the coalescer.
    pub closed spec fn pending_scroll(&self) -> Option<PendingScroll> {
        self.coalescer.pending_scroll()
    }

    /// The coalescing window, in nanoseconds.
    pub closed spec fn window_len(&self) -> u64 {
        self.coalescer.window_len()
    }

    /// A collector with the default coalescing window and nothing queued.
    pub fn new() -> (r: Self)
        ensures
            r.queue().len() == 0,
            r.pending_scroll() is None,
            r.window_len() == DEFAULT_COALESCE_WINDOW_NANOS,
    {
        RawInputCollector {
            coalescer: InputCoalescer::with_default_window(),
            pending_events: std::collections::VecDeque::new(),
        }
    }

    /// A collector with a coalescing window of `window` nanoseconds.
    pub fn with_window(window: u64) -> (r: Self)
        ensures
            r.queue().len() == 0,
            r.pending_scroll() is None,
            r.window_len() == window,
    {
        RawInputCollector {
            coalescer: InputCoalescer::new(window),
            pending_events: std::collections::VecDeque::new(),
        }
    }

    /// No event is queued and no scroll is accumulating.
    pub fn is_idle(&self) -> (r: bool)
        ensures
            r == (self.queue().len() == 0 && self.pending_scroll() is None),
    {
        self.pending_events.len() == 0 && self.coalescer.is_empty()
    }

    /// Take in a terminal event that arrived at `now`.
    pub fn process_event(&mut self, event: Event, now: u64)
        ensures
            final(self).window_len() == old(self).window_len(),
            (final(self).queue(), final(self).pending_scroll()) == enqueue_step(
                old(self).queue(),
                old(self).pending_scroll(),
                event,
                now,
            ),
    {
        self.enqueue_event(event, now);
    }

    /// The next event: a scroll whose window has passed at `now`, else the oldest queued
    /// event, else nothing.
    pub fn try_flush_coalesced(&mut self, now: u64) -> (r: Option<RawInputEvent>)
        ensures
            final(self).window_len() == old(self).window_len(),
            is_stale(old(self).pending_scroll(), old(self).window_len(), now) ==> {
                &&& r == Some(
                    RawInputEvent::Scroll {
                        direction: old(self).pending_scroll()->Some_0.direction,
                        lines: old(self).pending_scroll()->Some_0.lines,
                    },
                )
                &&& final(self).pending_scroll() is None
                &&& final(self).queue() == old(self).queue()
            },
            !is_stale(old(self).pending_scroll(), old(self).window_len(), now) ==> {
                &&& final(self).pending_scroll() == old(self).pending_scroll()
                &&& old(self).queue().len() == 0 ==> r is None && final(self).queue() == old(
                    self,
                ).queue()
                &&& old(self).queue().len() > 0 ==> r == Some(old(self).queue()[0])
                    && final(self).queue() == old(self).queue().drop_first()
            },
    {
        match self.coalescer.flush_if_stale(now) {
            Some((direction, lines)) => Some(RawInputEvent::Scroll { direction, lines }),
            None => self.pop_pending(),
        }
    }

    fn enqueue_event(&mut self, event: Event, now: u64)
        ensures
            final(self).window_len() == old(self).window_len(),
            (final(self).queue(), final(self).pending_scroll()) == enqueue_step(
                old(self).queue(),
                old(self).pending_scroll(),
                event,
                now,
            ),
    {
        match event {
            Event::Key(key_event) => {
                self.pending_events.push_back(RawInputEvent::Key(key_event));
            },
            Event::Resize(width, height) => {
                self.flush_pending_scroll();
                self.pending_events.push_back(RawInputEvent::Resize { width, height });
            },
            Event::Mouse(kind) => {
                let _ = self.handle_mouse_event(kind, now);
            },
            Event::Other => {},
        }
    }

    fn handle_mouse_event(&mut self, kind: MouseEventKind, now: u64) -> (r: Option<RawInputEvent>)
        ensures
            r is None,
            final(self).window_len() == old(self).window_len(),
            (final(self).queue(), final(self).pending_scroll()) == enqueue_step(
                old(self).queue(),
                old(self).pending_scroll(),
                Event::Mouse(kind),
                now,
            ),
    {
        let direction = match kind {
            MouseEventKind::ScrollUp => ScrollDirection::Up,
            MouseEventKind::ScrollDown => ScrollDirection::Down,
            MouseEventKind::Other => return None,
        };
        if let Some((flushed_dir, lines)) = self.coalescer.push(direction, MOUSE_SCROLL_LINES, now) {
            self.pending_events.push_back(RawInputEvent::Scroll { direction: flushed_dir, lines });
        }
        None
    }

    fn flush_pending_scroll(&mut self)
        ensures
            final(self).window_len() == old(self).window_len(),
            final(self).pending_scroll() is None,
            final(self).queue() == match old(self).pending_scroll() {
                Some(p) => old(self).queue().push(
                    RawInputEvent::Scroll { direction: p.direction, lines: p.lines },
                ),
                None => old(self).queue(),
            },
    {
        if let Some((direction, lines)) = self.coalescer.flush() {
            self.pending_events.push_back(RawInputEvent::Scroll { direction, lines });
        }
    }

    /// Pop the oldest queued event without touching the coalescer.
    pub fn pop_pending(&mut self) -> (r: Option<RawInputEvent>)
        ensures
            final(self).window_len() == old(self).window_len(),
            final(self).pending_scroll() == old(self).pending_scroll(),
            old(self).queue().len() == 0 ==> r is None && final(self).queue() == old(self).queue(),
            old(self).queue().len() > 0 ==> r == Some(old(self).queue()[0]) && final(self).queue()
                == old(self).queue().drop_first(),
    {
        self.pending_events.pop_front()
    }
}

} // verus!
