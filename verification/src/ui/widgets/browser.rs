//! The browser panel: a header with buttons to build, delete and focus
//! tiles and to apply the current tool.

use vstd::prelude::*;

use crate::ui::context::Command;
use crate::ui::rect::Rect;
use crate::ui::widgets::text_button::{TextButton, TextButtonView};

verus! {

/// The abstract state of a [`Browser`].
pub struct BrowserView {
    pub rect: Rect,
    pub header_height: usize,
    pub buttons: Seq<TextButtonView>,
}

impl BrowserView {
    /// The position of the first button under `(x, y)` on the panel, 4 when none is.
    pub open spec fn first_hit(self, x: int, y: int) -> int {
        if !self.rect.contains_point(x, y) {
            4
        } else if self.buttons[0].rect.contains_point(x, y) {
            0
        } else if self.buttons[1].rect.contains_point(x, y) {
            1
        } else if self.buttons[2].rect.contains_point(x, y) {
            2
        } else if self.buttons[3].rect.contains_point(x, y) {
            3
        } else {
            4
        }
    }

    /// The state after a press at `(x, y)`: the button under it is pressed.
    pub open spec fn after_press(self, x: int, y: int) -> BrowserView {
        let f = self.first_hit(x, y);
        if f < 4 {
            BrowserView { buttons: self.buttons.update(f, self.buttons[f].after_press(x, y)), ..self }
        } else {
            self
        }
    }

    /// The pending command after a press at `(x, y)`.
    pub open spec fn press_command(self, x: int, y: int, pending: Option<Command>) -> Option<Command> {
        let f = self.first_hit(x, y);
        if f < 4 {
            self.buttons[f].cmd
        } else {
            pending
        }
    }

    /// The four buttons' edges fit in a `usize`.
    pub open spec fn fits(self) -> bool {
        &&& self.rect.x + self.rect.width <= usize::MAX
        &&& self.rect.y + self.rect.height <= usize::MAX
        &&& self.buttons.len() == 4
        &&& forall|i: int| 0 <= i < 4 ==> (#[trigger] self.buttons[i]).fits()
    }
}

/// The browser panel with its four header buttons, in order: build,
/// delete, focus and apply tool.
pub struct Browser {
    rect: Rect,
    header_height: usize,
    builder: TextButton,
    delete: TextButton,
    focus: TextButton,
    apply_tool: TextButton,
}

impl View for Browser {
    type V = BrowserView;

    closed spec fn view(&self) -> BrowserView {
        BrowserView {
            rect: self.rect,
            header_height: self.header_height,
            buttons: seq![self.builder@, self.delete@, self.focus@, self.apply_tool@],
        }
    }
}

/// The header buttons' rectangles for a panel at `r` with a header of
/// height `h`: three of width 100 from the left, 110 apart, and one of
/// width 130 at the right, all 2 pixels below the top and `h - 6` high.
pub open spec fn button_rects(r: Rect, h: int) -> Seq<Rect> {
    let y = (r.y + 2) as usize;
    let bh = (h - 6) as usize;
    seq![
        Rect { x: (r.x + 10) as usize, y, width: 100, height: bh },
        Rect { x: (r.x + 120) as usize, y, width: 100, height: bh },
        Rect { x: (r.x + 230) as usize, y, width: 100, height: bh },
        Rect { x: (r.x + r.width - 140) as usize, y, width: 130, height: bh },
    ]
}

impl Browser {
    /// A panel with an empty rectangle, a header 30 pixels high and the
    /// buttons `BUILDER`, `DELETE` and `FOCUS` (toggle buttons, off) and
    /// `APPLY TOOL` (a push button).
    pub fn new() -> (b: Self)
        ensures
            b@.rect == (Rect { x: 0, y: 0, width: 0, height: 0 }),
            b@.header_height == 30,
            b@.buttons.len() == 4,
            b@.buttons[0].text == "BUILDER"@,
            b@.buttons[1].text == "DELETE"@,
            b@.buttons[2].text == "FOCUS"@,
            b@.buttons[3].text == "APPLY TOOL"@,
            forall|i: int| 0 <= i < 3 ==> (#[trigger] b@.buttons[i]).has_state && !b@.buttons[i].state,
            !b@.buttons[3].has_state,
            forall|i: int| 0 <= i < 4 ==> (#[trigger] b@.buttons[i]).cmd is None && !b@.buttons[i].clicked,
    {
        let mut builder = TextButton::new();
        builder.set_text(String::from_str("BUILDER"));
        builder.set_has_state(false);
        let mut delete = TextButton::new();
        delete.set_text(String::from_str("DELETE"));
        delete.set_has_state(false);
        let mut focus = TextButton::new();
        focus.set_text(String::from_str("FOCUS"));
        focus.set_has_state(false);
        let mut apply_tool = TextButton::new();
        apply_tool.set_text(String::from_str("APPLY TOOL"));
        Self { rect: Rect::empty(), header_height: 30, builder, delete, focus, apply_tool }
    }

    pub fn rect(&self) -> (r: Rect)
        ensures
            r == self@.rect,
    {
        self.rect
    }

    /// The header button at position `i` (0 to 3).
    pub fn button(&self, i: usize) -> (b: &TextButton)
        requires
            i < 4,
        ensures
            b@ == self@.buttons[i as int],
    {
        if i == 0 {
            &self.builder
        } else if i == 1 {
            &self.delete
        } else if i == 2 {
            &self.focus
        } else {
            &self.apply_tool
        }
    }

    pub fn set_rect(&mut self, rect: Rect)
        ensures
            final(self)@ == (BrowserView { rect, ..old(self)@ }),
    {
        self.rect = rect;
    }

    /// Places the header buttons in the panel.
    pub fn layout(&mut self)
        requires
            old(self)@.rect.x + old(self)@.rect.width >= 140,
            old(self)@.header_height >= 6,
            old(self)@.rect.x + old(self)@.rect.width <= usize::MAX,
            old(self)@.rect.x + 230 <= usize::MAX,
            old(self)@.rect.y + 2 <= usize::MAX,
        ensures
            final(self)@.rect == old(self)@.rect,
            final(self)@.header_height == old(self)@.header_height,
            final(self)@.buttons.len() == 4,
            forall|i: int| 0 <= i < 4 ==> #[trigger] final(self)@.buttons[i] == (TextButtonView {
                rect: button_rects(old(self)@.rect, old(self)@.header_height as int)[i],
                ..old(self)@.buttons[i]
            }),
    {
        let x = self.rect.x + 10;
        let y = self.rect.y + 2;
        let h = self.header_height - 6;
        self.builder.set_rect(Rect::new(x, y, 100, h));
        self.delete.set_rect(Rect::new(x + 110, y, 100, h));
        self.focus.set_rect(Rect::new(x + 220, y, 100, h));
        self.apply_tool.set_rect(Rect::new(self.rect.x + self.rect.width - 10 - 130, y, 130, h));
        assert(self@.buttons =~= seq![self.builder@, self.delete@, self.focus@, self.apply_tool@]);
    }

    /// Whether the point lies on the panel.
    pub fn contains(&self, x: usize, y: usize) -> (b: bool)
        requires
            self@.rect.x + self@.rect.width <= usize::MAX,
            self@.rect.y + self@.rect.height <= usize::MAX,
        ensures
            b == self@.rect.contains_point(x as int, y as int),
    {
        self.rect.is_inside((x, y))
    }

    /// A press at `(x, y)` on the panel, offered to the buttons in order
    /// until one lies under it; returns that button's position.
    pub fn touch_down(&mut self, x: usize, y: usize, cmd: &mut Option<Command>) -> (hit: Option<usize>)
        requires
            old(self)@.fits(),
        ensures
            hit == (if old(self)@.first_hit(x as int, y as int) < 4 {
                Some(old(self)@.first_hit(x as int, y as int) as usize)
            } else {
                None::<usize>
            }),
            final(self)@ == old(self)@.after_press(x as int, y as int),
            *final(cmd) == old(self)@.press_command(x as int, y as int, *old(cmd)),
    {
        let ghost v = self@;
        if !self.rect.is_inside((x, y)) {
            return None;
        }
        if self.builder.touch_down(x, y, cmd) {
            assert(self@.buttons =~= v.buttons.update(0, self.builder@));
            return Some(0);
        }
        if self.delete.touch_down(x, y, cmd) {
            assert(self@.buttons =~= v.buttons.update(1, self.delete@));
            return Some(1);
        }
        if self.focus.touch_down(x, y, cmd) {
            assert(self@.buttons =~= v.buttons.update(2, self.focus@));
            return Some(2);
        }
        if self.apply_tool.touch_down(x, y, cmd) {
            assert(self@.buttons =~= v.buttons.update(3, self.apply_tool@));
            return Some(3);
        }
        assert(self@.buttons =~= v.buttons);
        None
    }
}

} // verus!
