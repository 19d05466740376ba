//! The interface of a terminal renderer driven by the render coordinator.

use crate::error::RllessError;
use crate::ui::state::ViewState;
use vstd::prelude::*;

verus! {

/// Draws the viewport and manages the terminal's lifecycle; implemented over a real
/// terminal by the application and by test doubles.
pub trait UIRenderer {
    /// Draw the viewport, its highlights and the status line.
    fn render(&mut self, view_state: &ViewState) -> Result<(), RllessError>;

    /// Enter raw mode and the alternate screen.
    fn initialize(&mut self) -> Result<(), RllessError>;

    /// Restore the terminal.
    fn cleanup(&mut self) -> Result<(), RllessError>;

    /// Terminal size as `(width, height)`.
    fn get_terminal_size(&self) -> Result<(u16, u16), RllessError>;
}

} // verus!
