//! A scripted tool and the values of its widgets.

use vstd::prelude::*;

use crate::ui::widgets::WidgetValue;

verus! {

/// A tool, with the values of the widgets it shows.
#[derive(Clone, Debug, PartialEq)]
pub struct Tool {
    pub widget_values: Vec<WidgetValue>,
}

impl Tool {
    /// A tool for `script`, with no widget value yet. The script is not
    /// kept: running it is up to the caller.
    pub fn new(script: String) -> (t: Self)
        ensures
            t.widget_values@.len() == 0,
    {
        Self { widget_values: Vec::new() }
    }
}

} // verus!
