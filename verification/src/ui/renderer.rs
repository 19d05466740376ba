//! The interface of a terminal renderer that also reads input.

use crate::error::RllessError;
use crate::input::service::InputAction;
use crate::ui::state::ViewState;
use vstd::prelude::*;

verus! {

/// Draws the viewport and reads user input; implemented over a real terminal by the
/// application and by test doubles.
pub trait UIRenderer {
    /// Draw the viewport, its highlights and the status line.
    fn render(&mut self, view_state: &ViewState) -> Result<(), RllessError>;

    /// Wait up to `timeout_nanos` (a default when `None`) for input and return the next
    /// action, or `None` when no action arrived.
    fn handle_input(&mut self, timeout_nanos: Option<u64>) -> Result<Option<InputAction>, RllessError>;

    /// Enter raw mode and the alternate screen.
    fn initialize(&mut self) -> Result<(), RllessError>;

    /// Restore the terminal.
    fn cleanup(&mut self) -> Result<(), RllessError>;

    /// Terminal size as `(width, height)`.
    fn get_terminal_size(&self) -> Result<(u16, u16), RllessError>;
}

} // verus!
