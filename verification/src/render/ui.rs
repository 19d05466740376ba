//! Renderer interfaces of the render subsystem.

pub mod renderer;

use crate::error::RllessError;
use crate::ui::state::ViewState;
use vstd::prelude::*;

verus! {

/// Something that draws a view; by default drawing does nothing and succeeds.
pub trait Renderer: Sized {
    /// Draw the current view. Unless a renderer draws for itself, drawing leaves it as
    /// it was and succeeds.
    fn render(&mut self, view_state: &ViewState) -> (r: Result<(), RllessError>)
        default_ensures
            r is Ok,
            *final(self) == *old(self),
    {
        Ok(())
    }
}

} // verus!
