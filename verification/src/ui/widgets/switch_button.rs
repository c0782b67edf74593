//! A two-sided switch: pressing its right half turns it on, its left half off.

use vstd::prelude::*;

use crate::ui::context::Command;
use crate::ui::rect::Rect;

verus! {

/// The abstract state of a [`SwitchButton`].
pub struct SwitchButtonView {
    pub rect: Rect,
    pub text_list: Seq<String>,
    pub cmd: Option<Command>,
    pub has_state: bool,
    pub state: bool,
}

impl SwitchButtonView {
    /// The right and bottom edges of the switch fit in a `usize`.
    pub open spec fn fits(self) -> bool {
        self.rect.x + self.rect.width <= usize::MAX && self.rect.y + self.rect.height <= usize::MAX
    }

    /// The state after a press at `(x, y)`: on the switch, a press right of
    /// the middle turns it on and any other press turns it off.
    pub open spec fn after_press(self, x: int, y: int) -> SwitchButtonView {
        if self.rect.contains_point(x, y) {
            SwitchButtonView { state: x > self.rect.x + self.rect.width / 2, ..self }
        } else {
            self
        }
    }

    /// Whether a press at `(x, y)` changes the state.
    pub open spec fn press_changes(self, x: int, y: int) -> bool {
        self.after_press(x, y).state != self.state
    }

    /// The pending command after a press at `(x, y)`: the switch's command
    /// on the switch, `pending` elsewhere.
    pub open spec fn press_command(self, x: int, y: int, pending: Option<Command>) -> Option<Command> {
        if self.rect.contains_point(x, y) {
            self.cmd
        } else {
            pending
        }
    }
}

/// A switch with a text for each side.
pub struct SwitchButton {
    rect: Rect,
    text_list: Vec<String>,
    cmd: Option<Command>,
    has_state: bool,
    state: bool,
}

impl View for SwitchButton {
    type V = SwitchButtonView;

    closed spec fn view(&self) -> SwitchButtonView {
        SwitchButtonView {
            rect: self.rect,
            text_list: self.text_list@,
            cmd: self.cmd,
            has_state: self.has_state,
            state: self.state,
        }
    }
}

impl SwitchButton {
    /// A switch that is off, with an empty rectangle, no texts and no command.
    pub fn new() -> (b: Self)
        ensures
            b@ == (SwitchButtonView {
                rect: Rect { x: 0, y: 0, width: 0, height: 0 },
                text_list: Seq::empty(),
                cmd: None,
                has_state: true,
                state: false,
            }),
    {
        Self {
            rect: Rect::empty(),
            text_list: Vec::new(),
            cmd: None,
            has_state: true,
            state: false,
        }
    }

    pub fn rect(&self) -> (r: Rect)
        ensures
            r == self@.rect,
    {
        self.rect
    }

    /// The texts of the left and the right side.
    pub fn text_list(&self) -> (t: &Vec<String>)
        ensures
            t@ == self@.text_list,
    {
        &self.text_list
    }

    pub fn set_rect(&mut self, rect: Rect)
        ensures
            final(self)@ == (SwitchButtonView { rect, ..old(self)@ }),
    {
        self.rect = rect;
    }

    /// The texts of the left and the right side.
    pub fn set_text_list(&mut self, text_list: Vec<String>)
        ensures
            final(self)@ == (SwitchButtonView { text_list: text_list@, ..old(self)@ }),
    {
        self.text_list = text_list;
    }

    pub fn set_cmd(&mut self, cmd: Command)
        ensures
            final(self)@ == (SwitchButtonView { cmd: Some(cmd), ..old(self)@ }),
    {
        self.cmd = Some(cmd);
    }

    pub fn set_has_state(&mut self, state: bool)
        ensures
            final(self)@ == (SwitchButtonView { state, has_state: true, ..old(self)@ }),
    {
        self.state = state;
        self.has_state = true;
    }

    pub fn get_state(&self) -> (s: bool)
        ensures
            s == self@.state,
    {
        self.state
    }

    /// Whether the point lies on the switch.
    pub fn contains(&self, x: usize, y: usize) -> (b: bool)
        requires
            self@.rect.x + self@.rect.width <= usize::MAX,
            self@.rect.y + self@.rect.height <= usize::MAX,
        ensures
            b == self@.rect.contains_point(x as int, y as int),
    {
        self.rect.is_inside((x, y))
    }

    /// A press at `(x, y)`. On the switch it sends the switch's command into
    /// `cmd`; a press right of the middle turns the switch on, any other
    /// press on it turns it off. True when the state changed.
    pub fn touch_down(&mut self, x: usize, y: usize, cmd: &mut Option<Command>) -> (changed: bool)
        requires
            old(self)@.fits(),
        ensures
            *final(cmd) == old(self)@.press_command(x as int, y as int, *old(cmd)),
            final(self)@ == old(self)@.after_press(x as int, y as int),
            changed == old(self)@.press_changes(x as int, y as int),
    {
        if self.rect.is_inside((x, y)) {
            *cmd = self.cmd;
            if x > self.rect.x + self.rect.width / 2 {
                if self.state == false {
                    self.state = true;
                    return true;
                }
            } else {
                if self.state == true {
                    self.state = false;
                    return true;
                }
            }
        }
        false
    }

    /// A release changes nothing.
    pub fn touch_up(&mut self) -> (changed: bool)
        ensures
            !changed,
            final(self)@ == old(self)@,
    {
        false
    }
}

} // verus!
