//! The mode of the editor's tool panel.

use vstd::prelude::*;

verus! {

/// What the tool panel works on.
#[derive(Clone, Copy, Debug, PartialEq, Eq, Structural)]
pub enum ToolMode {
    Palette,
    Point,
    History,
}

/// The editor state shared by the tools.
#[derive(Clone, Debug)]
pub struct Context {
    pub mode: ToolMode,
}

impl Context {
    /// A context in palette mode.
    pub fn new() -> (c: Self)
        ensures
            c.mode == ToolMode::Palette,
    {
        Self { mode: ToolMode::Palette }
    }
}

impl Default for Context {
    fn default() -> (c: Self)
        ensures
            c.mode == ToolMode::Palette,
    {
        Self::new()
    }
}

} // verus!
