//! A linear undo history: a stack of edits and the position of the last
//! applied one. Undo steps the position back, redo forward, and adding an
//! edit drops everything after the position.

use vstd::prelude::*;

verus! {

/// The abstract state of a [`CharacterUndo`]: the edits and the position of
/// the last applied one (-1 when none is applied).
pub struct UndoState<A> {
    pub stack: Seq<A>,
    pub index: int,
}

impl<A> UndoState<A> {
    /// The position lies between -1 and the last edit.
    pub open spec fn valid(self) -> bool {
        -1 <= self.index < self.stack.len()
    }

    pub open spec fn has_undo(self) -> bool {
        self.index >= 0
    }

    pub open spec fn has_redo(self) -> bool {
        self.index < self.stack.len() - 1
    }

    /// The state after adding `atom`: the edits after the position are
    /// dropped and `atom` becomes the last applied edit.
    pub open spec fn after_add(self, atom: A) -> UndoState<A> {
        UndoState { stack: self.stack.take(self.index + 1).push(atom), index: self.index + 1 }
    }

    /// The state after an undo: one step back, if there is an applied edit.
    pub open spec fn after_undo(self) -> UndoState<A> {
        if self.has_undo() {
            UndoState { index: self.index - 1, ..self }
        } else {
            self
        }
    }

    /// The state after a redo: one step forward, if there is an undone edit.
    pub open spec fn after_redo(self) -> UndoState<A> {
        if self.has_redo() {
            UndoState { index: self.index + 1, ..self }
        } else {
            self
        }
    }

    /// The state after keeping only the newest `limit` edits; the position
    /// moves with its edit and stays at least -1.
    pub open spec fn after_truncate(self, limit: int) -> UndoState<A> {
        if self.stack.len() > limit {
            let excess = self.stack.len() - limit;
            UndoState {
                stack: self.stack.skip(excess),
                index: if self.index - excess < -1 {
                    -1
                } else {
                    self.index - excess
                },
            }
        } else {
            self
        }
    }
}

/// An undo history of edits of type `A`. The caller applies the edits: undo
/// and redo return the position of the edit to apply.
pub struct CharacterUndo<A> {
    pub stack: Vec<A>,
    pub index: isize,
}

impl<A> View for CharacterUndo<A> {
    type V = UndoState<A>;

    open spec fn view(&self) -> UndoState<A> {
        UndoState { stack: self.stack@, index: self.index as int }
    }
}

impl<A> CharacterUndo<A> {
    /// The position is in range and the length fits in an `isize`.
    pub open spec fn wf(&self) -> bool {
        &&& self@.valid()
        &&& self.stack@.len() <= isize::MAX
    }

    /// An empty history.
    pub fn new() -> (u: Self)
        ensures
            u.wf(),
            u@.stack == Seq::<A>::empty(),
            u@.index == -1,
    {
        Self { stack: Vec::new(), index: -1 }
    }

    /// Whether the history holds no edit.
    pub fn is_empty(&self) -> (b: bool)
        ensures
            b == (self.stack@.len() == 0),
    {
        self.stack.len() == 0
    }

    /// Drops every edit.
    pub fn clear(&mut self)
        ensures
            final(self).wf(),
            final(self)@.stack == Seq::<A>::empty(),
            final(self)@.index == -1,
    {
        self.stack = Vec::new();
        self.index = -1;
    }

    /// Whether there is an applied edit to undo.
    pub fn has_undo(&self) -> (b: bool)
        ensures
            b == self@.has_undo(),
    {
        self.index >= 0
    }

    /// Whether there is an undone edit to redo.
    pub fn has_redo(&self) -> (b: bool)
        requires
            self.wf(),
        ensures
            b == self@.has_redo(),
    {
        let len = self.stack.len() as isize;
        self.index >= -1 && self.index < len - 1
    }

    /// Adds `atom` after the position, dropping the edits after it.
    pub fn add(&mut self, atom: A)
        requires
            old(self).wf(),
            old(self).index < isize::MAX - 1,
        ensures
            final(self).wf(),
            final(self)@ == old(self)@.after_add(atom),
    {
        let keep = (self.index + 1) as usize;
        self.stack.truncate(keep);
        self.stack.push(atom);
        self.index = self.index + 1;
        assert(self.stack@ =~= old(self).stack@.take(old(self).index + 1).push(atom));
    }

    /// Steps back over the last applied edit and returns its position, so
    /// that the caller can undo it; `None` when no edit is applied.
    pub fn undo(&mut self) -> (r: Option<usize>)
        requires
            old(self).wf(),
        ensures
            final(self).wf(),
            final(self)@ == old(self)@.after_undo(),
            r == (if old(self)@.has_undo() {
                Some(old(self).index as usize)
            } else {
                None
            }),
    {
        if self.index >= 0 {
            let at = self.index as usize;
            self.index = self.index - 1;
            Some(at)
        } else {
            None
        }
    }

    /// Steps forward to the next undone edit and returns its position, so
    /// that the caller can redo it; `None` when there is none.
    pub fn redo(&mut self) -> (r: Option<usize>)
        requires
            old(self).wf(),
        ensures
            final(self).wf(),
            final(self)@ == old(self)@.after_redo(),
            r == (if old(self)@.has_redo() {
                Some((old(self).index + 1) as usize)
            } else {
                None
            }),
    {
        let len = self.stack.len() as isize;
        if self.index < len - 1 {
            self.index = self.index + 1;
            Some(self.index as usize)
        } else {
            None
        }
    }

    /// Keeps only the newest `limit` edits.
    pub fn truncate_to_limit(&mut self, limit: usize)
        requires
            old(self).wf(),
        ensures
            final(self).wf(),
            final(self)@ == old(self)@.after_truncate(limit as int),
    {
        if self.stack.len() > limit {
            let excess = self.stack.len() - limit;
            let tail = self.stack.split_off(excess);
            self.stack = tail;
            self.index = self.index - excess as isize;
            if self.index < -1 {
                self.index = -1;
            }
        }
    }
}

impl<A> Default for CharacterUndo<A> {
    fn default() -> (u: Self)
        ensures
            u.wf(),
            u@.stack == Seq::<A>::empty(),
            u@.index == -1,
    {
        Self::new()
    }
}

/// Undo followed by redo gives back the state, when there is something to undo.
pub proof fn lemma_undo_then_redo<A>(u: UndoState<A>)
    requires
        u.valid(),
        u.has_undo(),
    ensures
        u.after_undo().after_redo() == u,
{
}

/// Redo followed by undo gives back the state, when there is something to redo.
pub proof fn lemma_redo_then_undo<A>(u: UndoState<A>)
    requires
        u.valid(),
        u.has_redo(),
    ensures
        u.after_redo().after_undo() == u,
{
}

/// After adding an edit there is nothing to redo, the edit can be undone,
/// and an undo hands back the edit just added.
pub proof fn lemma_add_then_undo<A>(u: UndoState<A>, atom: A)
    requires
        u.valid(),
    ensures
        u.after_add(atom).valid(),
        !u.after_add(atom).has_redo(),
        u.after_add(atom).has_undo(),
        u.after_add(atom).stack[u.after_add(atom).index] == atom,
        u.after_add(atom).after_undo().index == u.index,
        u.after_add(atom).stack.take(u.index + 1) == u.stack.take(u.index + 1),
{
    assert(u.after_add(atom).stack.take(u.index + 1) =~= u.stack.take(u.index + 1));
}

/// Every operation keeps a valid history valid, and truncation leaves at
/// most `limit` edits.
pub proof fn lemma_valid_preserved<A>(u: UndoState<A>, atom: A, limit: int)
    requires
        u.valid(),
        limit >= 0,
    ensures
        u.after_add(atom).valid(),
        u.after_undo().valid(),
        u.after_redo().valid(),
        u.after_truncate(limit).valid(),
        u.after_truncate(limit).stack.len() <= limit || u.after_truncate(limit) == u,
{
}

} // verus!
