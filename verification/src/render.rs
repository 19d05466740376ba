//! Rendering: the protocol between the render coordinator and the search worker, the
//! coordinator's decisions, and the renderer interfaces.

pub mod protocol;
pub mod service;
pub mod ui;
