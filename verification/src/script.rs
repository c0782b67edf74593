//! The integer vector type that tool scripts work with.

use vstd::prelude::*;

verus! {

/// A vector of three `i32`, as scripts see it.
#[derive(Clone, Copy, Debug, PartialEq, Eq)]
pub struct ScriptVec3i {
    pub v: (i32, i32, i32),
}

/// Whether `v` fits in an `i32`.
pub open spec fn fits_i32(v: int) -> bool {
    i32::MIN <= v <= i32::MAX
}

/// `a / b` rounded toward zero, as Rust divides integers: a quotient of
/// whole numbers, negated when `a` is negative (`/` on `int` rounds toward
/// negative infinity for a positive divisor and toward positive infinity
/// for a negative one).
pub open spec fn div_toward_zero(a: i32, b: i32) -> i32 {
    if a >= 0 {
        (a / b) as i32
    } else {
        (-((-a) / (b as int))) as i32
    }
}

impl ScriptVec3i {
    /// A copy of `v`.
    pub fn from(v: ScriptVec3i) -> (r: Self)
        ensures
            r == v,
    {
        Self { v: v.v }
    }

    pub fn from_vec3i(v: (i32, i32, i32)) -> (r: Self)
        ensures
            r.v == v,
    {
        Self { v }
    }

    /// The zero vector.
    pub fn zeros() -> (r: Self)
        ensures
            r.v == (0i32, 0i32, 0i32),
    {
        Self { v: (0, 0, 0) }
    }

    /// The vector with `v` in every coordinate.
    pub fn new_x(v: i32) -> (r: Self)
        ensures
            r.v == (v, v, v),
    {
        Self { v: (v, v, v) }
    }

    pub fn new(x: i32, y: i32, z: i32) -> (r: Self)
        ensures
            r.v == (x, y, z),
    {
        Self { v: (x, y, z) }
    }

    pub fn get_x(&mut self) -> (r: i32)
        ensures
            r == old(self).v.0,
            *final(self) == *old(self),
    {
        self.v.0
    }

    pub fn set_x(&mut self, new_val: i32)
        ensures
            final(self).v == (new_val, old(self).v.1, old(self).v.2),
    {
        self.v.0 = new_val;
    }

    pub fn get_y(&mut self) -> (r: i32)
        ensures
            r == old(self).v.1,
            *final(self) == *old(self),
    {
        self.v.1
    }

    pub fn set_y(&mut self, new_val: i32)
        ensures
            final(self).v == (old(self).v.0, new_val, old(self).v.2),
    {
        self.v.1 = new_val;
    }

    pub fn get_z(&mut self) -> (r: i32)
        ensures
            r == old(self).v.2,
            *final(self) == *old(self),
    {
        self.v.2
    }

    pub fn set_z(&mut self, new_val: i32)
        ensures
            final(self).v == (old(self).v.0, old(self).v.1, new_val),
    {
        self.v.2 = new_val;
    }

    /// The sum, coordinate by coordinate.
    pub fn sum(a: Self, b: Self) -> (r: Self)
        requires
            fits_i32(a.v.0 + b.v.0),
            fits_i32(a.v.1 + b.v.1),
            fits_i32(a.v.2 + b.v.2),
        ensures
            r.v == ((a.v.0 + b.v.0) as i32, (a.v.1 + b.v.1) as i32, (a.v.2 + b.v.2) as i32),
    {
        Self { v: (a.v.0 + b.v.0, a.v.1 + b.v.1, a.v.2 + b.v.2) }
    }

    /// The difference, coordinate by coordinate.
    pub fn difference(a: Self, b: Self) -> (r: Self)
        requires
            fits_i32(a.v.0 - b.v.0),
            fits_i32(a.v.1 - b.v.1),
            fits_i32(a.v.2 - b.v.2),
        ensures
            r.v == ((a.v.0 - b.v.0) as i32, (a.v.1 - b.v.1) as i32, (a.v.2 - b.v.2) as i32),
    {
        Self { v: (a.v.0 - b.v.0, a.v.1 - b.v.1, a.v.2 - b.v.2) }
    }

    /// The product, coordinate by coordinate.
    pub fn product(a: Self, b: Self) -> (r: Self)
        requires
            fits_i32(a.v.0 * b.v.0),
            fits_i32(a.v.1 * b.v.1),
            fits_i32(a.v.2 * b.v.2),
        ensures
            r.v == ((a.v.0 * b.v.0) as i32, (a.v.1 * b.v.1) as i32, (a.v.2 * b.v.2) as i32),
    {
        Self { v: (a.v.0 * b.v.0, a.v.1 * b.v.1, a.v.2 * b.v.2) }
    }

    /// The quotient, coordinate by coordinate, rounded toward zero.
    pub fn quotient(a: Self, b: Self) -> (r: Self)
        requires
            b.v.0 != 0 && b.v.1 != 0 && b.v.2 != 0,
            !(a.v.0 == i32::MIN && b.v.0 == -1),
            !(a.v.1 == i32::MIN && b.v.1 == -1),
            !(a.v.2 == i32::MIN && b.v.2 == -1),
        ensures
            r.v == (div_toward_zero(a.v.0, b.v.0), div_toward_zero(a.v.1, b.v.1), div_toward_zero(a.v.2, b.v.2)),
    {
        Self { v: (a.v.0 / b.v.0, a.v.1 / b.v.1, a.v.2 / b.v.2) }
    }

    /// Every coordinate times `s`.
    pub fn scaled(a: Self, s: i32) -> (r: Self)
        requires
            fits_i32(a.v.0 * s),
            fits_i32(a.v.1 * s),
            fits_i32(a.v.2 * s),
        ensures
            r.v == ((a.v.0 * s) as i32, (a.v.1 * s) as i32, (a.v.2 * s) as i32),
    {
        Self { v: (a.v.0 * s, a.v.1 * s, a.v.2 * s) }
    }
}

/// The kinds of value a script can hand to a tool.
#[derive(Clone, Copy, Debug, PartialEq, Eq, Structural)]
pub enum ScriptValueType {
    Color,
}

/// A named value handed over by a script.
#[derive(Clone, Debug)]
pub struct ScriptValue {
    pub value_type: ScriptValueType,
    pub name: String,
    /// The palette index of a color.
    pub index: u8,
}

impl ScriptValue {
    /// A color value; the index keeps the low eight bits of `index`.
    pub fn color(name: String, index: i32) -> (v: Self)
        ensures
            v.value_type == ScriptValueType::Color,
            v.name@ == name@,
            v.index == index as u8,
    {
        Self { value_type: ScriptValueType::Color, name, index: #[verifier::truncate] (index as u8) }
    }
}

/// The side of a voxel that a script refers to.
#[derive(Clone, Copy, Debug, PartialEq, Eq, Hash, Structural)]
pub enum SideEnum {
    Top,
    Bottom,
    Left,
    Right,
    Front,
    Back,
}

} // verus!
