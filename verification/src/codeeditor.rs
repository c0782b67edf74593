//! The code editor panel. It holds no state of its own; its widgets are
//! built by the user interface.

use vstd::prelude::*;

verus! {

/// The code editor panel.
#[derive(Clone, Copy, Debug, PartialEq, Eq, Structural)]
pub struct CodeEditor {}

impl CodeEditor {
    pub fn new() -> (c: Self)
        ensures
            c == (CodeEditor {}),
    {
        Self {}
    }
}

} // verus!
