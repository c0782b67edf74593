//! The values that widgets hand to tools, and the widgets' own state.

pub mod browser;
pub mod int_slider;
pub mod palettebar;
pub mod shape_selector;
pub mod switch_button;
pub mod text_button;

use vstd::prelude::*;

verus! {

/// A named value that a widget edits: a palette color index or a material index.
#[derive(Clone, Debug, PartialEq, Eq)]
pub enum WidgetValue {
    Color(String, u8),
    Material(String, u8),
}

} // verus!
