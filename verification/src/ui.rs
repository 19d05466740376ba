//! Viewport state and the status line, the renderer interface, and application events.

pub mod events;
pub mod highlight;
pub mod renderer;
pub mod state;

pub use crate::input::{InputAction, InputService, InputState, InputStateMachine, ScrollDirection, SearchDirection};
pub use renderer::UIRenderer;
pub use state::{DisplayMode, StatusLine, ViewState};
