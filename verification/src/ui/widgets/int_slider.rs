//! A slider over a range of integers.

use vstd::prelude::*;

use crate::ui::rect::Rect;

verus! {

/// The abstract state of an [`IntSlider`].
pub struct IntSliderView {
    pub rect: Rect,
    pub text: Seq<char>,
    pub min: i32,
    pub max: i32,
    pub value: i32,
    pub clicked: bool,
}

/// `v` kept within `min..=max`.
pub open spec fn clamp_to(v: i32, min: i32, max: i32) -> i32 {
    if v < min {
        min
    } else if v > max {
        max
    } else {
        v
    }
}

/// A slider with a label and an integer value in `min..=max`. The rounded
/// value under a pointer position is computed by the caller (it depends on
/// the sub-pixel position); the slider keeps it within the range and keeps
/// the state of the interaction.
pub struct IntSlider {
    rect: Rect,
    text: String,
    min: i32,
    max: i32,
    value: i32,
    clicked: bool,
}

impl View for IntSlider {
    type V = IntSliderView;

    closed spec fn view(&self) -> IntSliderView {
        IntSliderView {
            rect: self.rect,
            text: self.text@,
            min: self.min,
            max: self.max,
            value: self.value,
            clicked: self.clicked,
        }
    }
}

impl IntSlider {
    /// A slider over `0..=0` at 0, with an empty rectangle and no label.
    pub fn new() -> (s: Self)
        ensures
            s@ == (IntSliderView {
                rect: Rect { x: 0, y: 0, width: 0, height: 0 },
                text: Seq::empty(),
                min: 0,
                max: 0,
                value: 0,
                clicked: false,
            }),
    {
        Self { rect: Rect::empty(), text: String::new(), min: 0, max: 0, value: 0, clicked: false }
    }

    pub fn rect(&self) -> (r: Rect)
        ensures
            r == self@.rect,
    {
        self.rect
    }

    pub fn text(&self) -> (t: &String)
        ensures
            t@ == self@.text,
    {
        &self.text
    }

    /// The range of the slider.
    pub fn range(&self) -> (r: (i32, i32))
        ensures
            r == (self@.min, self@.max),
    {
        (self.min, self.max)
    }

    pub fn set_rect(&mut self, rect: Rect)
        ensures
            final(self)@ == (IntSliderView { rect, ..old(self)@ }),
    {
        self.rect = rect;
    }

    pub fn set_text(&mut self, text: String)
        ensures
            final(self)@ == (IntSliderView { text: text@, ..old(self)@ }),
    {
        self.text = text;
    }

    pub fn set_range(&mut self, min: i32, max: i32)
        ensures
            final(self)@ == (IntSliderView { min, max, ..old(self)@ }),
    {
        self.min = min;
        self.max = max;
    }

    pub fn get_value(&self) -> (v: i32)
        ensures
            v == self@.value,
    {
        self.value
    }

    pub fn set_value(&mut self, value: i32)
        ensures
            final(self)@ == (IntSliderView { value, ..old(self)@ }),
    {
        self.value = value;
    }

    /// Whether the point lies on the slider.
    pub fn contains(&self, x: usize, y: usize) -> (b: bool)
        requires
            self@.rect.x + self@.rect.width <= usize::MAX,
            self@.rect.y + self@.rect.height <= usize::MAX,
        ensures
            b == self@.rect.contains_point(x as int, y as int),
    {
        self.rect.is_inside((x, y))
    }

    /// `v` kept within `min..=max`.
    fn clamp(v: i32, min: i32, max: i32) -> (r: i32)
        requires
            min <= max,
        ensures
            r == clamp_to(v, min, max),
            min <= r <= max,
    {
        if v < min {
            min
        } else if v > max {
            max
        } else {
            v
        }
    }

    /// A press at `(x, y)`, where the (rounded) value under the pointer is
    /// `picked`. On the slider the value becomes `picked` kept within the
    /// range, the slider is held and true is returned; elsewhere nothing
    /// changes.
    pub fn touch_down(&mut self, x: usize, y: usize, picked: i32) -> (hit: bool)
        requires
            old(self)@.rect.x + old(self)@.rect.width <= usize::MAX,
            old(self)@.rect.y + old(self)@.rect.height <= usize::MAX,
            old(self)@.rect.contains_point(x as int, y as int) ==> old(self)@.min <= old(self)@.max,
        ensures
            hit == old(self)@.rect.contains_point(x as int, y as int),
            final(self)@ == (if hit {
                IntSliderView {
                    value: clamp_to(picked, old(self)@.min, old(self)@.max),
                    clicked: true,
                    ..old(self)@
                }
            } else {
                old(self)@
            }),
            hit ==> final(self)@.min <= final(self)@.value <= final(self)@.max,
    {
        if self.rect.is_inside((x, y)) {
            self.value = Self::clamp(picked, self.min, self.max);
            self.clicked = true;
            return true;
        }
        false
    }

    /// A drag while held. Past the slider's right end (`past_end`) the
    /// value becomes the maximum; otherwise it becomes `picked` kept within
    /// the range, where `picked` is the value under the pointer (`None`
    /// left of the slider, where the value stays). True while held.
    pub fn touch_dragged(&mut self, picked: Option<i32>, past_end: bool) -> (held: bool)
        requires
            old(self)@.clicked && !past_end && picked is Some ==> old(self)@.min <= old(self)@.max,
        ensures
            held == old(self)@.clicked,
            final(self)@ == (if !held {
                old(self)@
            } else if past_end {
                IntSliderView { value: old(self)@.max, ..old(self)@ }
            } else {
                match picked {
                    Some(v) => IntSliderView { value: clamp_to(v, old(self)@.min, old(self)@.max), ..old(self)@ },
                    None => old(self)@,
                }
            }),
            held && !past_end && picked is Some ==> final(self)@.min <= final(self)@.value
                <= final(self)@.max,
    {
        if self.clicked {
            if past_end {
                self.value = self.max;
            } else if let Some(v) = picked {
                self.value = Self::clamp(v, self.min, self.max);
            }
            return true;
        }
        false
    }

    /// A release: a held slider is let go and true is returned.
    pub fn touch_up(&mut self) -> (changed: bool)
        ensures
            changed == old(self)@.clicked,
            final(self)@ == (IntSliderView { clicked: false, ..old(self)@ }),
    {
        if self.clicked {
            self.clicked = false;
            return true;
        }
        false
    }
}

} // verus!
