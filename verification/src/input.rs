//! Input: keyboard events as plain values, the `less`-style input state machine, and the
//! coalescing of raw terminal events.

pub mod keys;
pub mod raw;

pub mod service;

pub use keys::{KeyCode, KeyEvent, KeyEventKind, KeyModifiers};
pub use service::{InputAction, InputService, InputState, InputStateMachine, ScrollDirection, SearchDirection};
