//! A push button, or a toggle button when it has a state.

use vstd::prelude::*;

use crate::ui::context::Command;
use crate::ui::rect::Rect;

verus! {

/// The abstract state of a [`TextButton`].
pub struct TextButtonView {
    pub rect: Rect,
    pub text: Seq<char>,
    pub cmd: Option<Command>,
    pub clicked: bool,
    pub has_state: bool,
    pub state: bool,
}

impl TextButtonView {
    /// The right and bottom edges of the button fit in a `usize`.
    pub open spec fn fits(self) -> bool {
        self.rect.x + self.rect.width <= usize::MAX && self.rect.y + self.rect.height <= usize::MAX
    }

    /// The state after a press at `(x, y)`: on the button, a toggle button
    /// flips and a push button is clicked.
    pub open spec fn after_press(self, x: int, y: int) -> TextButtonView {
        if !self.rect.contains_point(x, y) {
            self
        } else if self.has_state {
            TextButtonView { state: !self.state, ..self }
        } else {
            TextButtonView { clicked: true, ..self }
        }
    }

    /// The pending command after a press at `(x, y)`: the button's command
    /// on the button, `pending` elsewhere.
    pub open spec fn press_command(self, x: int, y: int, pending: Option<Command>) -> Option<Command> {
        if self.rect.contains_point(x, y) {
            self.cmd
        } else {
            pending
        }
    }
}

/// A button with a text. A push button is `clicked` between a press and the
/// release; a toggle button flips its state on each press.
pub struct TextButton {
    rect: Rect,
    text: String,
    cmd: Option<Command>,
    clicked: bool,
    has_state: bool,
    state: bool,
}

impl View for TextButton {
    type V = TextButtonView;

    closed spec fn view(&self) -> TextButtonView {
        TextButtonView {
            rect: self.rect,
            text: self.text@,
            cmd: self.cmd,
            clicked: self.clicked,
            has_state: self.has_state,
            state: self.state,
        }
    }
}

impl TextButton {
    /// A push button with an empty rectangle, no text and no command.
    pub fn new() -> (b: Self)
        ensures
            b@ == (TextButtonView {
                rect: Rect { x: 0, y: 0, width: 0, height: 0 },
                text: Seq::empty(),
                cmd: None,
                clicked: false,
                has_state: false,
                state: false,
            }),
    {
        Self {
            rect: Rect::empty(),
            text: String::new(),
            cmd: None,
            clicked: false,
            has_state: false,
            state: false,
        }
    }

    pub fn rect(&self) -> (r: Rect)
        ensures
            r == self@.rect,
    {
        self.rect
    }

    pub fn text(&self) -> (t: &String)
        ensures
            t@ == self@.text,
    {
        &self.text
    }

    pub fn set_rect(&mut self, rect: Rect)
        ensures
            final(self)@ == (TextButtonView { rect, ..old(self)@ }),
    {
        self.rect = rect;
    }

    pub fn set_text(&mut self, text: String)
        ensures
            final(self)@ == (TextButtonView { text: text@, ..old(self)@ }),
    {
        self.text = text;
    }

    pub fn set_cmd(&mut self, cmd: Command)
        ensures
            final(self)@ == (TextButtonView { cmd: Some(cmd), ..old(self)@ }),
    {
        self.cmd = Some(cmd);
    }

    /// Makes the button a toggle button in state `state`.
    pub fn set_has_state(&mut self, state: bool)
        ensures
            final(self)@ == (TextButtonView { state, has_state: true, ..old(self)@ }),
    {
        self.state = state;
        self.has_state = true;
    }

    pub fn get_state(&self) -> (s: bool)
        ensures
            s == self@.state,
    {
        self.state
    }

    /// Whether the point lies on the button.
    pub fn contains(&self, x: usize, y: usize) -> (b: bool)
        requires
            self@.rect.x + self@.rect.width <= usize::MAX,
            self@.rect.y + self@.rect.height <= usize::MAX,
        ensures
            b == self@.rect.contains_point(x as int, y as int),
    {
        self.rect.is_inside((x, y))
    }

    /// A press at `(x, y)`. On the button it sends the button's command
    /// into `cmd`, flips a toggle button or marks a push button clicked,
    /// and returns true; elsewhere nothing changes.
    pub fn touch_down(&mut self, x: usize, y: usize, cmd: &mut Option<Command>) -> (hit: bool)
        requires
            old(self)@.fits(),
        ensures
            hit == old(self)@.rect.contains_point(x as int, y as int),
            *final(cmd) == old(self)@.press_command(x as int, y as int, *old(cmd)),
            final(self)@ == old(self)@.after_press(x as int, y as int),
    {
        if self.rect.is_inside((x, y)) {
            *cmd = self.cmd;
            if self.has_state {
                self.state = !self.state;
            } else {
                self.clicked = true;
            }
            return true;
        }
        false
    }

    /// A release: a clicked push button is released and true is returned.
    pub fn touch_up(&mut self) -> (changed: bool)
        ensures
            changed == old(self)@.clicked,
            final(self)@ == (TextButtonView { clicked: false, ..old(self)@ }),
    {
        if self.clicked {
            self.clicked = false;
            return true;
        }
        false
    }

    /// Whether the button is drawn highlighted: while clicked or when on.
    pub fn is_highlighted(&self) -> (b: bool)
        ensures
            b == (self@.clicked || self@.state),
    {
        self.clicked || self.state
    }
}

} // verus!
