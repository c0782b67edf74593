//! A column of shape previews, 40 pixels each, from which one is picked.

use vstd::prelude::*;

use crate::ui::rect::Rect;

verus! {

/// The height of one preview in the column.
pub const PREVIEW_HEIGHT: usize = 40;

/// The abstract state of a [`ShapeSelector`].
pub struct ShapeSelectorView {
    pub rect: Rect,
    pub previews: (Seq<u8>, Rect),
    pub curr_index: Option<usize>,
}

/// A column of shape previews; a press picks the shape under it.
pub struct ShapeSelector {
    rect: Rect,
    sdf_previews: (Vec<u8>, Rect),
    curr_index: Option<usize>,
}

impl View for ShapeSelector {
    type V = ShapeSelectorView;

    closed spec fn view(&self) -> ShapeSelectorView {
        ShapeSelectorView {
            rect: self.rect,
            previews: (self.sdf_previews.0@, self.sdf_previews.1),
            curr_index: self.curr_index,
        }
    }
}

impl ShapeSelector {
    /// A selector showing `previews` (the pixels of the column and their
    /// rectangle), with an empty rectangle and nothing picked.
    pub fn new(previews: (Vec<u8>, Rect)) -> (s: Self)
        ensures
            s@ == (ShapeSelectorView {
                rect: Rect { x: 0, y: 0, width: 0, height: 0 },
                previews: (previews.0@, previews.1),
                curr_index: None,
            }),
    {
        Self { rect: Rect::empty(), sdf_previews: previews, curr_index: None }
    }

    pub fn rect(&self) -> (r: Rect)
        ensures
            r == self@.rect,
    {
        self.rect
    }

    /// The pixels of the preview column and their rectangle.
    pub fn previews(&self) -> (p: &(Vec<u8>, Rect))
        ensures
            p.0@ == self@.previews.0,
            p.1 == self@.previews.1,
    {
        &self.sdf_previews
    }

    pub fn set_rect(&mut self, rect: Rect)
        ensures
            final(self)@ == (ShapeSelectorView { rect, ..old(self)@ }),
    {
        self.rect = rect;
    }

    /// Whether the point lies on the selector.
    pub fn contains(&self, x: usize, y: usize) -> (b: bool)
        requires
            self@.rect.x + self@.rect.width <= usize::MAX,
            self@.rect.y + self@.rect.height <= usize::MAX,
        ensures
            b == self@.rect.contains_point(x as int, y as int),
    {
        self.rect.is_inside((x, y))
    }

    /// A press at height `y` in a column of `count` shapes: the shape at
    /// row `(y - top) / 40` is picked and returned when there is one.
    pub fn touch_down(&mut self, y: usize, count: usize) -> (picked: Option<usize>)
        requires
            y >= old(self)@.rect.y,
        ensures
            picked == (if (y - old(self)@.rect.y) / 40 < count {
                Some(((y - old(self)@.rect.y) / 40) as usize)
            } else {
                None
            }),
            final(self)@ == (if picked is Some {
                ShapeSelectorView { curr_index: picked, ..old(self)@ }
            } else {
                old(self)@
            }),
    {
        let index = (y - self.rect.y) / PREVIEW_HEIGHT;
        if index < count {
            self.curr_index = Some(index);
            return Some(index);
        }
        None
    }

    /// A release: a picked shape is let go and true is returned.
    pub fn touch_up(&mut self) -> (changed: bool)
        ensures
            changed == (old(self)@.curr_index is Some),
            final(self)@ == (ShapeSelectorView { curr_index: None, ..old(self)@ }),
    {
        if self.curr_index.is_some() {
            self.curr_index = None;
            return true;
        }
        false
    }

    /// The rectangle outlined around the picked shape, if any: its row of
    /// the selector.
    pub fn highlight(&self) -> (r: Option<(usize, usize, usize, usize)>)
        requires
            self@.curr_index matches Some(i) ==> self@.rect.y + i * 40 <= usize::MAX,
        ensures
            r == (match self@.curr_index {
                Some(i) => Some((self@.rect.x, (self@.rect.y + i * 40) as usize, self@.rect.width, 40usize)),
                None => None,
            }),
    {
        match self.curr_index {
            Some(i) => Some((self.rect.x, self.rect.y + i * PREVIEW_HEIGHT, self.rect.width, PREVIEW_HEIGHT)),
            None => None,
        }
    }
}

} // verus!
