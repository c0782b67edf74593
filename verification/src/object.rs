//! An object built from tools of fixed kinds.

use vstd::prelude::*;


use crate::ui::widgets::WidgetValue;

verus! {

/// The kinds of tool an object is built with.
#[derive(Clone, Copy, Debug, PartialEq, Eq, Structural)]
pub enum ToolType {
    WallBuilder,
}

/// A tool of a fixed kind, with the values of its widgets.
#[derive(Clone, Debug, PartialEq)]
pub struct Tool {
    pub tool_type: ToolType,
    pub widget_values: Vec<WidgetValue>,
}

/// The display name of a tool kind.
pub open spec fn tool_name(t: ToolType) -> Seq<char> {
    match t {
        ToolType::WallBuilder => "Wall Builder"@,
    }
}

impl Tool {
    /// A tool of kind `tool_type` with no widget value yet.
    pub fn new(tool_type: ToolType) -> (t: Self)
        ensures
            t.tool_type == tool_type,
            t.widget_values@.len() == 0,
    {
        Self { tool_type, widget_values: Vec::new() }
    }

    /// The display name of the tool's kind.
    pub fn name(&self) -> (n: String)
        ensures
            n@ == tool_name(self.tool_type),
    {
        match self.tool_type {
            ToolType::WallBuilder => String::from_str("Wall Builder"),
        }
    }
}

/// An object: the tools it is built with, in order.
#[derive(Clone, Debug, PartialEq)]
pub struct Object {
    pub tools: Vec<Tool>,
}

impl Object {
    /// An object with no tool.
    pub fn new() -> (o: Self)
        ensures
            o.tools@.len() == 0,
    {
        Self { tools: Vec::new() }
    }
}

} // verus!
