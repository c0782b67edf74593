//! The palette bar: a grid of palette colors, ten per row, above a switch
//! between picking colors and picking materials.

use vstd::prelude::*;

use crate::ui::context::Command;
use crate::ui::rect::Rect;

verus! {

/// The side of one color cell.
pub const CELL: usize = 16;

/// The number of cells per row.
pub const ROW: usize = 10;

/// The height of the mode switch.
pub const SWITCH_HEIGHT: usize = 30;

/// What a press in the palette grid picks.
#[derive(Clone, Copy, Debug, PartialEq, Eq, Structural)]
pub enum PaletteMode {
    Color,
    Material,
}

/// The abstract state of a [`PaletteBar`].
pub struct PaletteBarView {
    pub mode: PaletteMode,
    pub rect: Rect,
    pub palette_r: Rect,
    pub switch_y: usize,
}

/// The index picked by a press at `(x, y)` in a grid at `(gx, gy)`: the
/// cell's column plus ten times its row, at most 255.
pub open spec fn cell_index(gx: int, gy: int, x: int, y: int) -> int {
    let i = (x - gx) / 16 + ((y - gy) / 16) * 10;
    if i > 255 {
        255
    } else {
        i
    }
}

impl PaletteBarView {
    /// The edges of the bar, of its grid and of its switch fit in a `usize`.
    pub open spec fn fits(self) -> bool {
        &&& self.rect.x + self.rect.width <= usize::MAX
        &&& self.rect.y + self.rect.height <= usize::MAX
        &&& self.palette_r.x + self.palette_r.width <= usize::MAX
        &&& self.palette_r.y + self.palette_r.height <= usize::MAX
        &&& self.switch_y + 30 <= usize::MAX
    }

    /// Whether `(x, y)` lies in the grid (and on the bar).
    pub open spec fn in_grid(self, x: int, y: int) -> bool {
        self.rect.contains_point(x, y) && self.palette_r.contains_point(x, y)
    }

    /// The command a press or drag in the grid sends: the picked index as a
    /// color or a material, by the mode.
    pub open spec fn grid_command(self, x: int, y: int) -> Command {
        let i = cell_index(self.palette_r.x as int, self.palette_r.y as int, x, y) as u8;
        if self.mode == PaletteMode::Color {
            Command::ColorIndexChanged(i)
        } else {
            Command::MaterialIndexChanged(i)
        }
    }

    /// Whether `(x, y)` lies on the mode switch (and not in the grid).
    pub open spec fn on_switch(self, x: int, y: int) -> bool {
        self.rect.contains_point(x, y) && !self.palette_r.contains_point(x, y) && self.switch_y < y
            < self.switch_y + 30
    }

    /// The mode that a press on the switch at `x` chooses: color on the left half.
    pub open spec fn switch_mode(self, x: int) -> PaletteMode {
        if x < self.rect.x + self.rect.width / 2 {
            PaletteMode::Color
        } else {
            PaletteMode::Material
        }
    }

    /// The state after a press at `(x, y)`.
    pub open spec fn after_press(self, x: int, y: int) -> PaletteBarView {
        if self.on_switch(x, y) {
            PaletteBarView { mode: self.switch_mode(x), ..self }
        } else {
            self
        }
    }

    /// Whether a press at `(x, y)` picks an index or changes the mode.
    pub open spec fn press_hits(self, x: int, y: int) -> bool {
        self.in_grid(x, y) || (self.on_switch(x, y) && self.switch_mode(x) != self.mode)
    }

    /// The pending command after a press or drag at `(x, y)`.
    pub open spec fn press_command(self, x: int, y: int, pending: Option<Command>) -> Option<Command> {
        if self.in_grid(x, y) {
            Some(self.grid_command(x, y))
        } else {
            pending
        }
    }
}

/// The palette bar's layout and mode.
pub struct PaletteBar {
    mode: PaletteMode,
    rect: Rect,
    palette_r: Rect,
    switch_y: usize,
}

impl View for PaletteBar {
    type V = PaletteBarView;

    closed spec fn view(&self) -> PaletteBarView {
        PaletteBarView {
            mode: self.mode,
            rect: self.rect,
            palette_r: self.palette_r,
            switch_y: self.switch_y,
        }
    }
}

impl PaletteBar {
    /// A bar in color mode with empty rectangles.
    pub fn new() -> (b: Self)
        ensures
            b@ == (PaletteBarView {
                mode: PaletteMode::Color,
                rect: Rect { x: 0, y: 0, width: 0, height: 0 },
                palette_r: Rect { x: 0, y: 0, width: 0, height: 0 },
                switch_y: 0,
            }),
    {
        Self { mode: PaletteMode::Color, rect: Rect::empty(), palette_r: Rect::empty(), switch_y: 0 }
    }

    pub fn rect(&self) -> (r: Rect)
        ensures
            r == self@.rect,
    {
        self.rect
    }

    pub fn set_rect(&mut self, rect: Rect)
        ensures
            final(self)@ == (PaletteBarView { rect, ..old(self)@ }),
    {
        self.rect = rect;
    }

    /// Whether the point lies on the bar.
    pub fn contains(&self, x: usize, y: usize) -> (b: bool)
        requires
            self@.fits(),
        ensures
            b == self@.rect.contains_point(x as int, y as int),
    {
        self.rect.is_inside((x, y))
    }

    pub fn mode(&self) -> (m: PaletteMode)
        ensures
            m == self@.mode,
    {
        self.mode
    }

    /// Lays the bar out for a palette of `count` colors. In color mode the
    /// grid starts two pixels below the top and has `count / 10 + 1` rows;
    /// in material mode the grid keeps its last place. The switch comes two
    /// pixels below the grid (or below the top margin in material mode).
    pub fn layout(&mut self, count: usize)
        requires
            old(self)@.rect.y + 4 + (count / 10 + 1) * 16 <= usize::MAX,
        ensures
            final(self)@.mode == old(self)@.mode,
            final(self)@.rect == old(self)@.rect,
            old(self)@.mode == PaletteMode::Color ==> final(self)@.palette_r == (Rect {
                x: old(self)@.rect.x,
                y: (old(self)@.rect.y + 2) as usize,
                width: 160,
                height: ((count / 10 + 1) * 16) as usize,
            }),
            old(self)@.mode == PaletteMode::Color ==> final(self)@.switch_y == old(self)@.rect.y + 4
                + (count / 10 + 1) * 16,
            old(self)@.mode == PaletteMode::Material ==> final(self)@.palette_r == old(
                self,
            )@.palette_r,
            old(self)@.mode == PaletteMode::Material ==> final(self)@.switch_y == old(self)@.rect.y
                + 4,
    {
        let x = self.rect.x;
        let y = self.rect.y + 2;
        let mut bottom = y;
        if self.mode == PaletteMode::Color {
            let rows = count / ROW + 1;
            bottom = y + rows * CELL;
            self.palette_r = Rect::new(x, y, ROW * CELL, rows * CELL);
        }
        self.switch_y = bottom + 2;
    }

    /// The cell of color `index` in the grid.
    pub fn cell_rect(&self, index: usize) -> (r: (usize, usize, usize, usize))
        requires
            self@.rect.x + 144 <= usize::MAX,
            self@.rect.y + 2 + (index / 10) * 16 <= usize::MAX,
        ensures
            r == (
                (self@.rect.x + (index % 10) * 16) as usize,
                (self@.rect.y + 2 + (index / 10) * 16) as usize,
                16usize,
                16usize,
            ),
    {
        (self.rect.x + (index % ROW) * CELL, self.rect.y + 2 + (index / ROW) * CELL, CELL, CELL)
    }

    /// The index under `(x, y)` in the grid, which holds the point.
    fn pick(&self, x: usize, y: usize) -> (i: u8)
        requires
            self@.palette_r.contains_point(x as int, y as int),
        ensures
            i == cell_index(self@.palette_r.x as int, self@.palette_r.y as int, x as int, y as int),
    {
        let col = (x - self.palette_r.x) / CELL;
        let row = (y - self.palette_r.y) / CELL;
        if row > 25 {
            return 255;
        }
        let i = col + row * ROW;
        if i > 255 {
            255
        } else {
            i as u8
        }
    }

    /// A press at `(x, y)`. In the grid it sends the picked color (or
    /// material) index into `cmd`; on the switch it changes the mode by the
    /// half that was hit. True when something was picked or the mode changed.
    pub fn touch_down(&mut self, x: usize, y: usize, cmd: &mut Option<Command>) -> (hit: bool)
        requires
            old(self)@.fits(),
        ensures
            *final(cmd) == old(self)@.press_command(x as int, y as int, *old(cmd)),
            final(self)@ == old(self)@.after_press(x as int, y as int),
            hit == old(self)@.press_hits(x as int, y as int),
    {
        if self.rect.is_inside((x, y)) {
            if self.palette_r.is_inside((x, y)) {
                let index = self.pick(x, y);
                if self.mode == PaletteMode::Color {
                    *cmd = Some(Command::ColorIndexChanged(index));
                } else {
                    *cmd = Some(Command::MaterialIndexChanged(index));
                }
                return true;
            }
            if y > self.switch_y && y < self.switch_y + SWITCH_HEIGHT {
                if x < self.rect.x + self.rect.width / 2 {
                    if self.mode != PaletteMode::Color {
                        self.mode = PaletteMode::Color;
                        return true;
                    }
                } else {
                    if self.mode != PaletteMode::Material {
                        self.mode = PaletteMode::Material;
                        return true;
                    }
                }
            }
        }
        false
    }

    /// A drag to `(x, y)`: in the grid it sends the picked index into `cmd`
    /// as a press does and returns true.
    pub fn touch_dragged(&mut self, x: usize, y: usize, cmd: &mut Option<Command>) -> (hit: bool)
        requires
            old(self)@.fits(),
        ensures
            *final(cmd) == old(self)@.press_command(x as int, y as int, *old(cmd)),
            final(self)@ == old(self)@,
            hit == old(self)@.in_grid(x as int, y as int),
    {
        if self.rect.is_inside((x, y)) {
            if self.palette_r.is_inside((x, y)) {
                let index = self.pick(x, y);
                if self.mode == PaletteMode::Color {
                    *cmd = Some(Command::ColorIndexChanged(index));
                } else {
                    *cmd = Some(Command::MaterialIndexChanged(index));
                }
                return true;
            }
        }
        false
    }
}

} // verus!
