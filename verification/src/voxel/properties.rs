//! Properties of the voxel grid that relate several operations: what a read
//! gives back after a write, what committing a preview keeps, and how undo
//! and redo undo each other.

use vstd::prelude::*;

use crate::fxmaps::{opt_get, Coord};
use crate::voxel::grid::{overwrite, Change, VoxelGridView};

verus! {

/// Writing the same edit twice leaves only the second write.
proof fn lemma_overwrite_twice(m: Map<Coord, u8>, d: Map<Coord, Change>, a: bool, b: bool)
    ensures
        overwrite(overwrite(m, d, a), d, b) =~= overwrite(m, d, b),
{
}

/// After storing `mat` at `c`, a read at `c` gives `mat` back (nothing
/// for 255) unless the preview covers `c`; every other voxel reads as before.
pub proof fn lemma_read_after_set(g: VoxelGridView, c: Coord, mat: u8, other: Coord)
    requires
        !g.added.dom().contains(c),
        !g.removed.contains(c),
        other != c,
    ensures
        g.after_set(c, mat).read(c) == (if mat == 255 {
            None::<u8>
        } else {
            Some(mat)
        }),
        g.after_set(c, mat).read(other) == g.read(other),
{
}

/// After showing `m` at `c` in the preview, a read at `c` gives `m`; every
/// other voxel reads as before.
pub proof fn lemma_read_after_preview_add(g: VoxelGridView, c: Coord, m: u8, other: Coord)
    requires
        other != c,
    ensures
        g.after_preview_add(c, m).read(c) == Some(m),
        g.after_preview_add(c, m).read(other) == g.read(other),
{
}

/// After hiding `c` in the preview, a read at `c` gives nothing; every
/// other voxel reads as before.
pub proof fn lemma_read_after_preview_remove(g: VoxelGridView, c: Coord, other: Coord)
    requires
        other != c,
    ensures
        g.after_preview_remove(c).read(c) is None,
        g.after_preview_remove(c).read(other) == g.read(other),
{
}

/// Dropping the preview shows the committed voxels again and keeps the history.
pub proof fn lemma_read_after_clear_preview(g: VoxelGridView, c: Coord)
    ensures
        g.after_clear_preview().read(c) == opt_get(g.committed, c),
        g.after_clear_preview().committed == g.committed,
        g.after_clear_preview().undo == g.undo,
        g.after_clear_preview().redo == g.redo,
{
}

/// Committing keeps what the preview shows, except that a hidden voxel
/// becomes material 0 and an added voxel of material 255 is erased.
pub proof fn lemma_commit_keeps_reads(g: VoxelGridView, c: Coord)
    requires
        g.valid(),
    ensures
        g.removed.contains(c) && !g.preview_is_empty() ==> g.after_commit().read(c) == Some(0u8),
        g.added.dom().contains(c) && g.added[c] == 255 ==> g.after_commit().read(c) is None,
        !g.removed.contains(c) && !(g.added.dom().contains(c) && g.added[c] == 255)
            ==> g.after_commit().read(c) == g.read(c),
{
}

/// Committing an empty preview changes nothing.
pub proof fn lemma_commit_empty(g: VoxelGridView)
    requires
        g.preview_is_empty(),
    ensures
        g.after_commit() == g,
{
}

/// Committing a preview records exactly one edit and empties the redo stack.
pub proof fn lemma_commit_history(g: VoxelGridView)
    requires
        !g.preview_is_empty(),
    ensures
        g.after_commit().undo == g.undo.push(g.preview_diff()),
        g.after_commit().redo.len() == 0,
        g.after_commit().preview_is_empty(),
{
}

/// Undoing a commit gives every voxel its committed material back, except
/// that a voxel the edit touched and that held nothing now holds material
/// 0. The history is as before the commit, with the edit on the redo stack.
pub proof fn lemma_undo_after_commit(g: VoxelGridView, c: Coord)
    requires
        g.valid(),
        !g.preview_is_empty(),
    ensures
        opt_get(g.after_commit().after_undo().committed, c) == (if g.preview_diff().dom().contains(
            c,
        ) && !g.committed.dom().contains(c) {
            Some(0u8)
        } else {
            opt_get(g.committed, c)
        }),
        g.after_commit().after_undo().undo == g.undo,
        g.after_commit().after_undo().redo == seq![g.preview_diff()],
        g.after_commit().after_undo().preview_is_empty(),
{
    lemma_overwrite_twice(g.committed, g.preview_diff(), true, false);
    assert(g.after_commit().undo.drop_last() =~= g.undo);
    assert(Seq::<Map<Coord, Change>>::empty().push(g.preview_diff()) =~= seq![g.preview_diff()]);
}

/// Redoing an undone commit gives back the state right after the commit.
pub proof fn lemma_redo_after_undo_after_commit(g: VoxelGridView)
    requires
        !g.preview_is_empty(),
    ensures
        g.after_commit().after_undo().after_redo() == g.after_commit(),
{
    let h = g.after_commit();
    let d = g.preview_diff();
    lemma_overwrite_twice(overwrite(g.committed, d, true), d, false, true);
    lemma_overwrite_twice(g.committed, d, true, true);
    assert(h.after_undo().redo.drop_last() =~= h.redo);
    assert(h.undo.drop_last().push(h.undo.last()) =~= h.undo);
    let k = h.after_undo().after_redo();
    assert(k.committed == h.committed);
    assert(k.undo == h.undo);
    assert(k.redo == h.redo);
}

/// Undo, then redo, then undo again ends where the first undo ended.
pub proof fn lemma_undo_redo_undo(g: VoxelGridView)
    requires
        g.undo.len() > 0,
    ensures
        g.after_undo().after_redo().after_undo() == g.after_undo(),
{
    let t = g.undo.last();
    lemma_overwrite_twice(g.committed, t, false, true);
    lemma_overwrite_twice(overwrite(g.committed, t, false), t, true, false);
    lemma_overwrite_twice(g.committed, t, false, false);
    let h = g.after_undo();
    assert(h.after_redo().undo.drop_last() =~= h.undo);
    assert(h.redo.drop_last().push(h.redo.last()) =~= h.redo);
}

/// Redo, then undo, then redo again ends where the first redo ended.
pub proof fn lemma_redo_undo_redo(g: VoxelGridView)
    requires
        g.redo.len() > 0,
    ensures
        g.after_redo().after_undo().after_redo() == g.after_redo(),
{
    let t = g.redo.last();
    lemma_overwrite_twice(g.committed, t, true, false);
    lemma_overwrite_twice(overwrite(g.committed, t, true), t, false, true);
    lemma_overwrite_twice(g.committed, t, true, true);
    let h = g.after_redo();
    assert(h.after_undo().redo.drop_last() =~= h.redo);
    assert(h.undo.drop_last().push(h.undo.last()) =~= h.undo);
}

/// Undo and redo move one edit between the stacks and leave the preview alone.
pub proof fn lemma_undo_redo_stacks(g: VoxelGridView)
    ensures
        g.undo.len() > 0 ==> g.after_undo().undo.len() + 1 == g.undo.len()
            && g.after_undo().redo.len() == g.redo.len() + 1,
        g.redo.len() > 0 ==> g.after_redo().redo.len() + 1 == g.redo.len()
            && g.after_redo().undo.len() == g.undo.len() + 1,
        g.after_undo().added == g.added && g.after_undo().removed == g.removed,
        g.after_redo().added == g.added && g.after_redo().removed == g.removed,
        g.undo.len() == 0 ==> g.after_undo() == g,
        g.redo.len() == 0 ==> g.after_redo() == g,
{
}

/// Every operation keeps a valid state valid.
pub proof fn lemma_valid_preserved(g: VoxelGridView, c: Coord, mat: u8)
    requires
        g.valid(),
    ensures
        g.after_set(c, mat).valid(),
        g.after_preview_add(c, mat).valid(),
        g.after_preview_remove(c).valid(),
        g.after_clear_preview().valid(),
        g.after_commit().valid(),
        g.after_undo().valid(),
        g.after_redo().valid(),
{
    assert forall|k: Coord| #[trigger] g.after_preview_add(c, mat).added.dom().contains(k)
        implies !g.after_preview_add(c, mat).removed.contains(k) by {
        if k != c {
            assert(g.added.dom().contains(k));
        }
    }
}

} // verus!
