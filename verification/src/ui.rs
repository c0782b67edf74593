//! The editor's user interface: the toolbar with its widgets, the palette
//! bar on the left, the settings panel on the right and the browser below.

pub mod context;
pub mod icon;
pub mod rect;
pub mod widgets;

use vstd::prelude::*;

use crate::ui::context::Command;
use crate::ui::rect::Rect;
use crate::ui::widgets::browser::{button_rects, Browser, BrowserView};
use crate::ui::widgets::palettebar::{PaletteBar, PaletteBarView};
use crate::ui::widgets::switch_button::SwitchButton;
use crate::ui::widgets::text_button::TextButton;

verus! {

/// The rectangles of the panels for a window of `width` by `height`.
pub struct Panels {
    pub toolbar: Rect,
    pub settings: Rect,
    pub modebar: Rect,
    pub browser: Rect,
}

/// The panel layout: the toolbar across the top, the palette bar down the
/// left, the settings panel down the right and the browser along the bottom
/// between them.
pub open spec fn panels_for(
    width: int,
    height: int,
    toolbar_height: int,
    palettebar_width: int,
    settings_width: int,
    browser_height: int,
) -> (int, int, int, int, int, int, int, int, int, int, int, int) {
    (
        width - settings_width, toolbar_height, settings_width, height - toolbar_height,
        0, toolbar_height, palettebar_width, height - toolbar_height,
        palettebar_width, height - browser_height, width - settings_width - palettebar_width, browser_height,
    )
}

/// The toolbar widgets, the palette bar and the panel sizes.
pub struct UI {
    pub toolbar_rect: Rect,
    pub toolbar_dirty: bool,
    pub edit_switch: SwitchButton,
    pub iso_button: TextButton,
    pub palette_bar: PaletteBar,
    pub browser: Browser,
    /// The browser button that took the last press, if any.
    pub browser_hit: Option<usize>,
    pub toolbar_height: usize,
    pub palettebar_width: usize,
    pub settings_width: usize,
    pub browser_height: usize,
}

impl UI {
    /// Editing is on while the edit switch is off.
    pub open spec fn edit_state(&self) -> bool {
        !self.edit_switch@.state
    }

    /// The iso view is on while the iso button is off.
    pub open spec fn iso_state(&self) -> bool {
        !self.iso_button@.state
    }

    /// Whether the toolbar must be drawn again.
    pub open spec fn dirty(&self) -> bool {
        self.toolbar_dirty
    }

    /// The interface with its default panel sizes (toolbar 90, palette bar
    /// 162, settings 300, browser 180): edit state and iso state on, the
    /// toolbar to be drawn.
    pub fn new() -> (ui: Self)
        ensures
            ui.toolbar_height == 90,
            ui.palettebar_width == 162,
            ui.settings_width == 300,
            ui.browser_height == 180,
            ui.edit_state(),
            ui.iso_state(),
            ui.dirty(),
            ui.toolbar_rect == (Rect { x: 0, y: 0, width: 0, height: 0 }),
            ui.edit_switch@.rect == (Rect { x: 0, y: 0, width: 0, height: 0 }),
            ui.edit_switch@.text_list.len() == 2,
            ui.edit_switch@.text_list[0]@ == "PIXEL"@,
            ui.edit_switch@.text_list[1]@ == "PBR"@,
            ui.edit_switch@.cmd == Some(Command::EditStateSwitched),
            ui.edit_switch@.has_state,
            ui.iso_button@.rect == (Rect { x: 0, y: 0, width: 0, height: 0 }),
            ui.iso_button@.text == "ORTHO"@,
            ui.iso_button@.cmd is None,
            ui.iso_button@.has_state,
            !ui.iso_button@.clicked,
            ui.palette_bar@ == (PaletteBarView {
                mode: crate::ui::widgets::palettebar::PaletteMode::Color,
                rect: Rect { x: 0, y: 0, width: 0, height: 0 },
                palette_r: Rect { x: 0, y: 0, width: 0, height: 0 },
                switch_y: 0,
            }),
            ui.browser@.header_height == 30,
            ui.browser_hit is None,
    {
        let mut edit_switch = SwitchButton::new();
        let mut texts: Vec<String> = Vec::new();
        texts.push(String::from_str("PIXEL"));
        texts.push(String::from_str("PBR"));
        edit_switch.set_text_list(texts);
        edit_switch.set_cmd(Command::EditStateSwitched);
        let mut iso_button = TextButton::new();
        iso_button.set_text(String::from_str("ORTHO"));
        iso_button.set_has_state(false);
        Self {
            toolbar_rect: Rect::empty(),
            toolbar_dirty: true,
            edit_switch,
            iso_button,
            palette_bar: PaletteBar::new(),
            browser: Browser::new(),
            browser_hit: None,
            toolbar_height: 90,
            palettebar_width: 162,
            settings_width: 300,
            browser_height: 180,
        }
    }

    /// Lays the interface out for a window of `width` by `height` and
    /// returns the panels' rectangles.
    pub fn layout(&mut self, width: usize, height: usize) -> (p: Panels)
        requires
            width >= old(self).settings_width + old(self).palettebar_width,
            width >= old(self).settings_width + 140,
            width >= 125,
            old(self).palettebar_width + 230 <= usize::MAX,
            height >= old(self).toolbar_height,
            height >= old(self).browser_height,
            height <= usize::MAX - 2,
            old(self).browser@.header_height >= 6,
        ensures
            ({
                let l = panels_for(
                    width as int,
                    height as int,
                    old(self).toolbar_height as int,
                    old(self).palettebar_width as int,
                    old(self).settings_width as int,
                    old(self).browser_height as int,
                );
                &&& p.toolbar == (Rect { x: 0, y: 0, width, height: old(self).toolbar_height })
                &&& p.settings == (Rect { x: l.0 as usize, y: l.1 as usize, width: l.2 as usize, height: l.3 as usize })
                &&& p.modebar == (Rect { x: l.4 as usize, y: l.5 as usize, width: l.6 as usize, height: l.7 as usize })
                &&& p.browser == (Rect { x: l.8 as usize, y: l.9 as usize, width: l.10 as usize, height: l.11 as usize })
                &&& final(self).toolbar_rect == p.toolbar
                &&& final(self).palette_bar@ == (PaletteBarView { rect: p.modebar, ..old(self).palette_bar@ })
                &&& final(self).browser@.rect == p.browser
                &&& final(self).browser@.header_height == old(self).browser@.header_height
                &&& final(self).browser@.buttons.len() == 4
                &&& forall|i: int| 0 <= i < 4 ==> #[trigger] final(self).browser@.buttons[i] == (
                    crate::ui::widgets::text_button::TextButtonView {
                        rect: button_rects(p.browser, old(self).browser@.header_height as int)[i],
                        ..old(self).browser@.buttons[i]
                    })
            }),
            final(self).browser_hit == old(self).browser_hit,
            final(self).edit_switch@ == (crate::ui::widgets::switch_button::SwitchButtonView {
                rect: Rect { x: 10, y: 52, width: 200, height: 34 },
                ..old(self).edit_switch@
            }),
            final(self).iso_button@ == (crate::ui::widgets::text_button::TextButtonView {
                rect: Rect { x: (width - 125) as usize, y: 52, width: 120, height: 32 },
                ..old(self).iso_button@
            }),
            final(self).toolbar_dirty == old(self).toolbar_dirty,
            final(self).toolbar_height == old(self).toolbar_height,
            final(self).palettebar_width == old(self).palettebar_width,
            final(self).settings_width == old(self).settings_width,
            final(self).browser_height == old(self).browser_height,
    {
        self.toolbar_rect = Rect::new(0, 0, width, self.toolbar_height);
        self.edit_switch.set_rect(Rect::new(10, 52, 200, 34));
        self.iso_button.set_rect(Rect::new(width - 125, 52, 120, 32));
        let settings = Rect::new(width - self.settings_width, self.toolbar_height, self.settings_width, height - self.toolbar_height);
        let modebar = Rect::new(0, self.toolbar_height, self.palettebar_width, height - self.toolbar_height);
        let browser = Rect::new(
            self.palettebar_width,
            height - self.browser_height,
            width - self.settings_width - self.palettebar_width,
            self.browser_height,
        );
        self.palette_bar.set_rect(modebar);
        self.browser.set_rect(browser);
        self.browser.layout();
        Panels { toolbar: self.toolbar_rect, settings, modebar, browser }
    }

    /// The edit state: on while the edit switch is off.
    pub fn get_edit_state(&self) -> (b: bool)
        ensures
            b == self.edit_state(),
    {
        !self.edit_switch.get_state()
    }

    /// The iso state: on while the iso button is off.
    pub fn get_iso_state(&self) -> (b: bool)
        ensures
            b == self.iso_state(),
    {
        !self.iso_button.get_state()
    }

    /// A press at `(x, y)`, offered to the edit switch, then to the iso
    /// button, then to the browser, then to the palette bar, until one takes
    /// it. A widget of the toolbar that takes it marks the toolbar to be
    /// drawn again; the browser records which of its buttons took it. The
    /// widgets leave their commands in `cmd`.
    pub fn touch_down(&mut self, x: usize, y: usize, cmd: &mut Option<Command>) -> (hit: bool)
        requires
            old(self).edit_switch@.fits(),
            old(self).iso_button@.fits(),
            old(self).browser@.fits(),
            old(self).palette_bar@.fits(),
        ensures
            ({
                let (xi, yi) = (x as int, y as int);
                let s = old(self).edit_switch@;
                let i = old(self).iso_button@;
                let b = old(self).browser@;
                let p = old(self).palette_bar@;
                let s_hit = s.press_changes(xi, yi);
                let i_hit = !s_hit && i.rect.contains_point(xi, yi);
                let b_tried = !s_hit && !i_hit;
                let b_hit = b_tried && b.first_hit(xi, yi) < 4;
                let p_tried = b_tried && !b_hit;
                let c1 = s.press_command(xi, yi, *old(cmd));
                let c2 = if s_hit { c1 } else { i.press_command(xi, yi, c1) };
                let c3 = if b_tried { b.press_command(xi, yi, c2) } else { c2 };
                let c4 = if p_tried { p.press_command(xi, yi, c3) } else { c3 };
                &&& final(self).edit_switch@ == s.after_press(xi, yi)
                &&& final(self).iso_button@ == (if s_hit { i } else { i.after_press(xi, yi) })
                &&& final(self).browser@ == (if b_tried { b.after_press(xi, yi) } else { b })
                &&& final(self).browser_hit == (if b_hit {
                    Some(b.first_hit(xi, yi) as usize)
                } else {
                    None::<usize>
                })
                &&& final(self).palette_bar@ == (if p_tried { p.after_press(xi, yi) } else { p })
                &&& *final(cmd) == c4
                &&& hit == (s_hit || i_hit || b_hit || (p_tried && p.press_hits(xi, yi)))
                &&& final(self).toolbar_dirty == (old(self).toolbar_dirty || s_hit || i_hit)
            }),
            final(self).toolbar_rect == old(self).toolbar_rect,
            final(self).toolbar_height == old(self).toolbar_height,
            final(self).palettebar_width == old(self).palettebar_width,
            final(self).settings_width == old(self).settings_width,
            final(self).browser_height == old(self).browser_height,
    {
        if self.edit_switch.touch_down(x, y, cmd) {
            self.browser_hit = None;
            self.toolbar_dirty = true;
            return true;
        }
        if self.iso_button.touch_down(x, y, cmd) {
            self.browser_hit = None;
            self.toolbar_dirty = true;
            return true;
        }
        self.browser_hit = self.browser.touch_down(x, y, cmd);
        if self.browser_hit.is_some() {
            return true;
        }
        self.palette_bar.touch_down(x, y, cmd)
    }

    /// A drag to `(x, y)`, offered to the palette bar.
    pub fn touch_dragged(&mut self, x: usize, y: usize, cmd: &mut Option<Command>) -> (hit: bool)
        requires
            old(self).palette_bar@.fits(),
        ensures
            hit == old(self).palette_bar@.in_grid(x as int, y as int),
            *final(cmd) == old(self).palette_bar@.press_command(x as int, y as int, *old(cmd)),
            final(self).palette_bar@ == old(self).palette_bar@,
            final(self).edit_switch@ == old(self).edit_switch@,
            final(self).iso_button@ == old(self).iso_button@,
            final(self).browser@ == old(self).browser@,
            final(self).browser_hit == old(self).browser_hit,
            final(self).toolbar_dirty == old(self).toolbar_dirty,
            final(self).toolbar_rect == old(self).toolbar_rect,
            final(self).toolbar_height == old(self).toolbar_height,
            final(self).palettebar_width == old(self).palettebar_width,
            final(self).settings_width == old(self).settings_width,
            final(self).browser_height == old(self).browser_height,
    {
        self.palette_bar.touch_dragged(x, y, cmd)
    }

    /// Whether the point lies on the toolbar, the browser or the palette bar.
    pub fn contains(&self, x: usize, y: usize) -> (b: bool)
        requires
            self.toolbar_rect.x + self.toolbar_rect.width <= usize::MAX,
            self.toolbar_rect.y + self.toolbar_rect.height <= usize::MAX,
            self.browser@.fits(),
            self.palette_bar@.fits(),
        ensures
            b == (self.toolbar_rect.contains_point(x as int, y as int)
                || self.browser@.rect.contains_point(x as int, y as int)
                || self.palette_bar@.rect.contains_point(x as int, y as int)),
    {
        self.toolbar_rect.is_inside((x, y)) || self.browser.contains(x, y) || self.palette_bar.contains(x, y)
    }

    /// Whether the toolbar must be drawn again; clears the mark.
    pub fn take_toolbar_dirty(&mut self) -> (b: bool)
        ensures
            b == old(self).dirty(),
            !final(self).dirty(),
            final(self).edit_state() == old(self).edit_state(),
            final(self).iso_state() == old(self).iso_state(),
            final(self).edit_switch@ == old(self).edit_switch@,
            final(self).iso_button@ == old(self).iso_button@,
            final(self).palette_bar@ == old(self).palette_bar@,
            final(self).browser@ == old(self).browser@,
            final(self).browser_hit == old(self).browser_hit,
            final(self).toolbar_rect == old(self).toolbar_rect,
            final(self).toolbar_height == old(self).toolbar_height,
            final(self).palettebar_width == old(self).palettebar_width,
            final(self).settings_width == old(self).settings_width,
            final(self).browser_height == old(self).browser_height,
    {
        let b = self.toolbar_dirty;
        self.toolbar_dirty = false;
        b
    }
}

} // verus!
