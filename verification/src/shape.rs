//! A shape built from up to five signed distance primitives.

use vstd::prelude::*;

verus! {

/// The number of primitive slots of a shape.
pub const SLOTS: usize = 5;

/// A shape: slots of primitives of type `S` (the first holds a circle at
/// first) and a size.
pub struct Shape<S> {
    pub sdf: Vec<Option<S>>,
    pub size: i32,
}

impl<S> Shape<S> {
    /// A shape of size 10 whose first slot holds `circle`, the others empty.
    pub fn new(circle: S) -> (s: Self)
        ensures
            s.sdf@ == seq![Some(circle), None, None, None, None],
            s.size == 10,
    {
        let mut sdf: Vec<Option<S>> = Vec::new();
        sdf.push(Some(circle));
        let mut i: usize = 1;
        while i < SLOTS
            invariant
                1 <= i <= SLOTS,
                sdf@.len() == i,
                sdf@[0] == Some(circle),
                forall|j: int| 1 <= j < i ==> sdf@[j] is None,
            decreases SLOTS - i,
        {
            sdf.push(None);
            i = i + 1;
        }
        assert(sdf@ =~= seq![Some(circle), None, None, None, None]);
        Self { sdf, size: 10 }
    }

    /// Puts `primitive` into slot `index`.
    pub fn set_sdf(&mut self, index: usize, primitive: Option<S>)
        requires
            index < old(self).sdf@.len(),
        ensures
            final(self).sdf@ == old(self).sdf@.update(index as int, primitive),
            final(self).size == old(self).size,
    {
        self.sdf.set(index, primitive);
    }
}

} // verus!
