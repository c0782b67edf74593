//! A sparse voxel container split into 32³ chunks, with a preview overlay
//! that is committed as one undoable edit.

use vstd::prelude::*;

use crate::fxmaps::{
    change_entries, change_map_insert, change_map_new, change_map_to_vec, chunk_entries,
    chunk_map_get, chunk_map_insert, chunk_map_new, chunk_map_remove, coord_members, coord_set_contains,
    coord_set_insert, coord_set_is_empty, coord_set_new, coord_set_remove, coord_set_to_vec,
    lists_entries, lists_members, opt_get, voxel_entries, voxel_map_get, voxel_map_insert,
    voxel_map_is_empty, voxel_map_new, voxel_map_remove, voxel_map_to_vec, ChangeMap, ChunkMap,
    Coord, CoordSet, VoxelMap,
};

verus! {

/// Key of a chunk: the voxel coordinates shifted right by 5.
pub type ChunkCoord = (i32, i32, i32);

// ---------------------------------------------------------------------------
// Mathematical model
// ---------------------------------------------------------------------------

/// Storing material `mat` at `c`: material 255 erases the voxel.
pub open spec fn set_voxel(m: Map<Coord, u8>, c: Coord, mat: u8) -> Map<Coord, u8> {
    if mat == 255 {
        m.remove(c)
    } else {
        m.insert(c, mat)
    }
}

/// What a voxel reads after one side of a change is written back:
/// `Some(mat)` stores `mat` (255 erases), `None` stores material 0.
pub open spec fn written(v: Option<u8>) -> Option<u8> {
    match v {
        Some(mat) => if mat == 255 {
            None
        } else {
            Some(mat)
        },
        None => Some(0),
    }
}

/// The side of a change that is written back: the new value (redo) or the previous one (undo).
pub open spec fn chosen(ch: Change, use_new: bool) -> Option<u8> {
    if use_new {
        ch.new
    } else {
        ch.prev
    }
}

/// `m` with every voxel of `d` written back from the chosen side of its change.
pub open spec fn overwrite(m: Map<Coord, u8>, d: Map<Coord, Change>, use_new: bool) -> Map<
    Coord,
    u8,
> {
    Map::new(
        |c: Coord|
            if d.dom().contains(c) {
                written(chosen(d[c], use_new)) is Some
            } else {
                m.dom().contains(c)
            },
        |c: Coord|
            if d.dom().contains(c) {
                written(chosen(d[c], use_new)).unwrap()
            } else {
                m[c]
            },
    )
}

/// The chunk that holds voxel `c`.
pub open spec fn chunk_of(c: Coord) -> ChunkCoord {
    (c.0 >> 5u32, c.1 >> 5u32, c.2 >> 5u32)
}

/// The position of voxel `c` inside its chunk.
pub open spec fn local_of(c: Coord) -> Coord {
    (c.0 & 31i32, c.1 & 31i32, c.2 & 31i32)
}

/// A position inside a chunk: each coordinate in `0..32`.
pub open spec fn local_in_range(l: Coord) -> bool {
    0 <= l.0 < 32 && 0 <= l.1 < 32 && 0 <= l.2 < 32
}

/// The voxels that a chunk map holds, by global coordinate.
pub open spec fn voxels_of(chunks: Map<ChunkCoord, Chunk>) -> Map<Coord, u8> {
    Map::new(
        |c: Coord|
            chunks.dom().contains(chunk_of(c)) && chunks[chunk_of(c)].entries().dom().contains(
                local_of(c),
            ),
        |c: Coord| chunks[chunk_of(c)].entries()[local_of(c)],
    )
}

/// The abstract state of a [`VoxelGrid`].
pub struct VoxelGridView {
    /// The committed voxels.
    pub committed: Map<Coord, u8>,
    /// Voxels added by the preview, shown over the committed ones.
    pub added: Map<Coord, u8>,
    /// Voxels hidden by the preview.
    pub removed: Set<Coord>,
    /// Edits that can be undone, the last one on top.
    pub undo: Seq<Map<Coord, Change>>,
    /// Edits that can be redone, the last one on top.
    pub redo: Seq<Map<Coord, Change>>,
}

impl VoxelGridView {
    /// What `get` reads at `c`: the preview first, then the committed voxels.
    pub open spec fn read(self, c: Coord) -> Option<u8> {
        if self.added.dom().contains(c) {
            Some(self.added[c])
        } else if self.removed.contains(c) {
            None
        } else {
            opt_get(self.committed, c)
        }
    }

    /// The state after storing `mat` at `c` in the committed voxels.
    pub open spec fn after_set(self, c: Coord, mat: u8) -> VoxelGridView {
        VoxelGridView { committed: set_voxel(self.committed, c, mat), ..self }
    }

    /// The state after showing material `m` at `c` in the preview.
    pub open spec fn after_preview_add(self, c: Coord, m: u8) -> VoxelGridView {
        VoxelGridView { added: self.added.insert(c, m), removed: self.removed.remove(c), ..self }
    }

    /// The state after hiding `c` in the preview; nothing changes when
    /// nothing is read at `c`.
    pub open spec fn after_preview_remove(self, c: Coord) -> VoxelGridView {
        if self.read(c) is Some {
            VoxelGridView { added: self.added.remove(c), removed: self.removed.insert(c), ..self }
        } else {
            self
        }
    }

    /// The state after dropping the preview.
    pub open spec fn after_clear_preview(self) -> VoxelGridView {
        VoxelGridView { added: Map::empty(), removed: Set::empty(), ..self }
    }

    /// Whether the preview neither adds nor hides a voxel.
    pub open spec fn preview_is_empty(self) -> bool {
        self.added == Map::<Coord, u8>::empty() && self.removed == Set::<Coord>::empty()
    }

    /// The edit that committing the preview records: each hidden voxel with
    /// no new value, each added voxel with its material, and every touched
    /// voxel with what the committed voxels held before.
    pub open spec fn preview_diff(self) -> Map<Coord, Change> {
        Map::new(
            |c: Coord| self.removed.contains(c) || self.added.dom().contains(c),
            |c: Coord|
                Change {
                    prev: opt_get(self.committed, c),
                    new: if self.removed.contains(c) {
                        None
                    } else {
                        Some(self.added[c])
                    },
                },
        )
    }

    /// The state after committing the preview. An empty preview changes nothing.
    pub open spec fn after_commit(self) -> VoxelGridView {
        if self.preview_is_empty() {
            self
        } else {
            VoxelGridView {
                committed: overwrite(self.committed, self.preview_diff(), true),
                added: Map::empty(),
                removed: Set::empty(),
                undo: self.undo.push(self.preview_diff()),
                redo: Seq::empty(),
            }
        }
    }

    /// The state after undoing the top edit, if any.
    pub open spec fn after_undo(self) -> VoxelGridView {
        if self.undo.len() == 0 {
            self
        } else {
            VoxelGridView {
                committed: overwrite(self.committed, self.undo.last(), false),
                undo: self.undo.drop_last(),
                redo: self.redo.push(self.undo.last()),
                ..self
            }
        }
    }

    /// The state after redoing the top undone edit, if any.
    pub open spec fn after_redo(self) -> VoxelGridView {
        if self.redo.len() == 0 {
            self
        } else {
            VoxelGridView {
                committed: overwrite(self.committed, self.redo.last(), true),
                undo: self.undo.push(self.redo.last()),
                redo: self.redo.drop_last(),
                ..self
            }
        }
    }

    /// The properties that every reachable state has: no committed voxel
    /// holds material 255, and no voxel is both added and hidden.
    pub open spec fn valid(self) -> bool {
        &&& forall|c: Coord| #[trigger] self.committed.dom().contains(c) ==> self.committed[c] != 255
        &&& forall|c: Coord| #[trigger] self.added.dom().contains(c) ==> !self.removed.contains(c)
    }
}

/// The voxels `thickness` voxels thick along y, over `0..sx` and `0..sz`, all of material `mat`.
pub open spec fn slab(sx: int, thickness: int, sz: int, mat: u8) -> Map<Coord, u8> {
    Map::new(
        |c: Coord| 0 <= c.0 < sx && 0 <= c.1 < thickness && 0 <= c.2 < sz,
        |c: Coord| mat,
    )
}


/// A size as the signed extent of the floor along its axis: the size taken
/// as an `i32`, wrapping past `i32::MAX`.
pub open spec fn floor_extent(n: usize) -> int {
    (n as i32) as int
}

/// `v`, or 0 where `v` is negative.
spec fn nonneg(v: int) -> int {
    if v < 0 { 0 } else { v }
}

/// The floor after the first `z` slices, then `y` rows of slice `z`, then
/// `x` voxels of row `y`, all of material 100.
spec fn floor_progress(sx: int, z: int, y: int, x: int) -> Map<Coord, u8> {
    Map::new(
        |c: Coord|
            (0 <= c.0 < sx && 0 <= c.1 < 2 && 0 <= c.2 < z) || (c.2 == z && ((0 <= c.0 < sx && 0
                <= c.1 < y) || (c.1 == y && 0 <= c.0 < x))),
        |c: Coord| 100u8,
    )
}

// ---------------------------------------------------------------------------
// Lemmas
// ---------------------------------------------------------------------------

proof fn lemma_split_coord(a: i32, b: i32)
    ensures
        (a >> 5u32 == b >> 5u32 && (a & 31i32) == (b & 31i32)) ==> a == b,
        0 <= (a & 31i32) < 32,
{
    assert((a >> 5u32 == b >> 5u32 && (a & 31i32) == (b & 31i32)) ==> a == b) by (bit_vector);
    assert(0 <= (a & 31i32) < 32) by (bit_vector);
}

/// A voxel is determined by its chunk and its position inside the chunk.
proof fn lemma_split(c: Coord, d: Coord)
    ensures
        (chunk_of(c) == chunk_of(d) && local_of(c) == local_of(d)) ==> c == d,
        local_in_range(local_of(c)),
{
    lemma_split_coord(c.0, d.0);
    lemma_split_coord(c.1, d.1);
    lemma_split_coord(c.2, d.2);
}


/// Replacing the chunk of `key` by one whose entries are the old ones with
/// `mat` stored at the position of `key` (and dropping it when it becomes
/// empty) stores `mat` at `key` in the voxels the chunk map holds, and keeps
/// the chunk map exact.
proof fn lemma_chunk_update(
    old_chunks: Map<ChunkCoord, Chunk>,
    new_chunks: Map<ChunkCoord, Chunk>,
    key: Coord,
    mat: u8,
    old_entries: Map<Coord, u8>,
    new_entries: Map<Coord, u8>,
    nc: Chunk,
)
    requires
        forall|ck: ChunkCoord, l: Coord|
            #![trigger old_chunks[ck].entries().dom().contains(l)]
            old_chunks.dom().contains(ck) && old_chunks[ck].entries().dom().contains(l)
                ==> local_in_range(l) && old_chunks[ck].entries()[l] != 255,
        forall|ck: ChunkCoord| #[trigger]
            old_chunks.dom().contains(ck) ==> old_chunks[ck].entries() != Map::<Coord, u8>::empty(),
        old_entries == (if old_chunks.dom().contains(chunk_of(key)) {
            old_chunks[chunk_of(key)].entries()
        } else {
            Map::<Coord, u8>::empty()
        }),
        new_entries == set_voxel(old_entries, local_of(key), mat),
        nc.entries() == new_entries,
        new_entries == Map::<Coord, u8>::empty() ==> new_chunks == old_chunks.remove(chunk_of(key)),
        new_entries != Map::<Coord, u8>::empty() ==> new_chunks == old_chunks.remove(
            chunk_of(key),
        ).insert(chunk_of(key), nc),
    ensures
        voxels_of(new_chunks) =~= set_voxel(voxels_of(old_chunks), key, mat),
        forall|ck: ChunkCoord, l: Coord|
            #![trigger new_chunks[ck].entries().dom().contains(l)]
            new_chunks.dom().contains(ck) && new_chunks[ck].entries().dom().contains(l)
                ==> local_in_range(l) && new_chunks[ck].entries()[l] != 255,
        forall|ck: ChunkCoord| #[trigger]
            new_chunks.dom().contains(ck) ==> new_chunks[ck].entries() != Map::<Coord, u8>::empty(),
{
    let ck = chunk_of(key);
    let local = local_of(key);
    lemma_split(key, key);
    let old_v = voxels_of(old_chunks);
    let new_v = voxels_of(new_chunks);
    let want = set_voxel(old_v, key, mat);
    assert forall|ck2: ChunkCoord| ck2 != ck implies #[trigger] new_chunks.dom().contains(ck2)
        == old_chunks.dom().contains(ck2) && (old_chunks.dom().contains(ck2) ==> new_chunks[ck2]
        == old_chunks[ck2]) by {}
    assert forall|c: Coord| #[trigger] new_v.dom().contains(c) == want.dom().contains(c) && (
    new_v.dom().contains(c) ==> new_v[c] == want[c]) by {
        lemma_split(c, key);
        if c == key {
            assert(chunk_of(c) == ck && local_of(c) == local);
            if mat == 255 {
                assert(!new_entries.dom().contains(local));
                assert(!want.dom().contains(c));
                assert(!new_v.dom().contains(c));
            } else {
                assert(new_entries.dom().contains(local) && new_entries[local] == mat);
                assert(new_entries != Map::<Coord, u8>::empty());
                assert(new_chunks.dom().contains(ck) && new_chunks[ck] == nc);
                assert(new_v.dom().contains(c));
                assert(new_v[c] == mat);
            }
        } else if chunk_of(c) != ck {
            assert(want.dom().contains(c) == old_v.dom().contains(c));
            if old_chunks.dom().contains(chunk_of(c)) {
                assert(new_chunks[chunk_of(c)] == old_chunks[chunk_of(c)]);
            }
            assert(new_v.dom().contains(c) == old_v.dom().contains(c));
            if new_v.dom().contains(c) {
                assert(new_v[c] == old_v[c]);
            }
        } else {
            assert(local_of(c) != local);
            assert(want.dom().contains(c) == old_v.dom().contains(c));
            assert(new_entries.dom().contains(local_of(c)) == old_entries.dom().contains(
                local_of(c),
            ));
            if old_entries.dom().contains(local_of(c)) {
                assert(old_chunks.dom().contains(ck));
                assert(new_entries != Map::<Coord, u8>::empty());
                assert(new_chunks.dom().contains(ck) && new_chunks[ck] == nc);
                assert(new_entries[local_of(c)] == old_entries[local_of(c)]);
                assert(old_v.dom().contains(c));
                assert(new_v.dom().contains(c));
                assert(new_v[c] == old_v[c]);
            } else {
                assert(!old_v.dom().contains(c));
                if new_entries == Map::<Coord, u8>::empty() {
                    assert(!new_chunks.dom().contains(ck));
                } else {
                    assert(new_chunks[ck] == nc);
                }
                assert(!new_v.dom().contains(c));
            }
        }
    }
    assert forall|ck2: ChunkCoord, l: Coord|
        #![trigger new_chunks[ck2].entries().dom().contains(l)]
        new_chunks.dom().contains(ck2) && new_chunks[ck2].entries().dom().contains(l) implies
        local_in_range(l) && new_chunks[ck2].entries()[l] != 255 by {
        if ck2 == ck {
            if new_entries == Map::<Coord, u8>::empty() {
                assert(!new_chunks.dom().contains(ck2));
            } else if l == local {
            } else {
                assert(old_entries.dom().contains(l));
                assert(old_chunks.dom().contains(ck));
                assert(old_chunks[ck].entries().dom().contains(l));
            }
        } else {
            assert(old_chunks.dom().contains(ck2));
            assert(new_chunks[ck2] == old_chunks[ck2]);
        }
    }
    assert forall|ck2: ChunkCoord| #[trigger]
        new_chunks.dom().contains(ck2) implies new_chunks[ck2].entries() != Map::<Coord, u8>::empty() by {
        if ck2 != ck {
            assert(new_chunks[ck2] == old_chunks[ck2]);
        } else if new_entries == Map::<Coord, u8>::empty() {
            assert(!new_chunks.dom().contains(ck2));
        }
    }
}

/// `m` with the voxel `c` given the reading `v`.
pub open spec fn write_at(m: Map<Coord, u8>, c: Coord, v: Option<u8>) -> Map<Coord, u8> {
    match v {
        Some(x) => m.insert(c, x),
        None => m.remove(c),
    }
}

/// Adding one more change to an overwrite writes that one voxel.
proof fn lemma_overwrite_step(
    m: Map<Coord, u8>,
    d: Map<Coord, Change>,
    c: Coord,
    ch: Change,
    use_new: bool,
)
    requires
        !d.dom().contains(c),
    ensures
        overwrite(m, d.insert(c, ch), use_new) =~= write_at(
            overwrite(m, d, use_new),
            c,
            written(chosen(ch, use_new)),
        ),
        opt_get(overwrite(m, d, use_new), c) == opt_get(m, c),
{
}

/// Storing `mat` writes the reading `written(Some(mat))`.
proof fn lemma_set_is_write(m: Map<Coord, u8>, c: Coord, mat: u8)
    ensures
        set_voxel(m, c, mat) =~= write_at(m, c, written(Some(mat))),
{
}

/// An overwrite never stores material 255.
proof fn lemma_overwrite_valid(m: Map<Coord, u8>, d: Map<Coord, Change>, use_new: bool)
    requires
        forall|c: Coord| #[trigger] m.dom().contains(c) ==> m[c] != 255,
    ensures
        forall|c: Coord| #[trigger]
            overwrite(m, d, use_new).dom().contains(c) ==> overwrite(m, d, use_new)[c] != 255,
{
}

/// The keys of `v` before position `i`.
spec fn keys_before<V>(v: Seq<(Coord, V)>, i: int) -> Set<Coord> {
    Set::new(|k: Coord| exists|j: int| 0 <= j < i && (#[trigger] v[j]).0 == k)
}

/// The members of `v` before position `i`.
spec fn members_before(v: Seq<Coord>, i: int) -> Set<Coord> {
    Set::new(|k: Coord| exists|j: int| 0 <= j < i && #[trigger] v[j] == k)
}

// ---------------------------------------------------------------------------
// Chunk
// ---------------------------------------------------------------------------

/// The voxels of one 32³ chunk, by position inside the chunk.
pub struct Chunk {
    vox: VoxelMap,
}

impl Chunk {
    /// The voxels of the chunk, by position inside it.
    pub closed spec fn entries(self) -> Map<Coord, u8> {
        voxel_entries(self.vox)
    }

    fn new() -> (c: Self)
        ensures
            c.entries() == Map::<Coord, u8>::empty(),
    {
        let c = Self { vox: voxel_map_new() };
        assert(c.entries() =~= Map::<Coord, u8>::empty());
        c
    }

    fn get(&self, local: Coord) -> (r: Option<u8>)
        ensures
            r == opt_get(self.entries(), local),
    {
        voxel_map_get(&self.vox, local)
    }

    fn set(&mut self, local: Coord, mat: u8) -> (prev: Option<u8>)
        ensures
            final(self).entries() == set_voxel(old(self).entries(), local, mat),
            prev == opt_get(old(self).entries(), local),
    {
        if mat == 255 {
            voxel_map_remove(&mut self.vox, local)
        } else {
            voxel_map_insert(&mut self.vox, local, mat)
        }
    }

    fn is_empty(&self) -> (b: bool)
        ensures
            b == (self.entries() == Map::<Coord, u8>::empty()),
    {
        let b = voxel_map_is_empty(&self.vox);
        proof {
            if b {
                assert(self.entries() =~= Map::<Coord, u8>::empty());
            } else {
                assert(self.entries().dom() != Map::<Coord, u8>::empty().dom());
            }
        }
        b
    }
}

// ---------------------------------------------------------------------------
// Change / Diff
// ---------------------------------------------------------------------------

/// One voxel of an edit: what it held before and what the edit wrote
/// (`None` for a voxel that the edit removed).
#[derive(Clone, Copy, PartialEq, Eq, Structural, Debug)]
pub struct Change {
    pub prev: Option<u8>,
    pub new: Option<u8>,
}

/// One undoable edit.
struct Diff {
    changes: ChangeMap,
}

/// The changes of an edit.
spec fn diff_entries(d: Diff) -> Map<Coord, Change> {
    change_entries(d.changes)
}

// ---------------------------------------------------------------------------
// VoxelGrid
// ---------------------------------------------------------------------------

/// Sparse voxel storage: only chunks that hold a voxel are kept.
pub struct VoxelGrid {
    chunks: ChunkMap,
    added: VoxelMap,
    removed: CoordSet,
    undo_stack: Vec<Diff>,
    redo_stack: Vec<Diff>,
    size: [usize; 3],
    pub density: usize,
}

impl View for VoxelGrid {
    type V = VoxelGridView;

    closed spec fn view(&self) -> VoxelGridView {
        VoxelGridView {
            committed: voxels_of(chunk_entries(self.chunks)),
            added: voxel_entries(self.added),
            removed: coord_members(self.removed),
            undo: self.undo_stack@.map_values(|d: Diff| diff_entries(d)),
            redo: self.redo_stack@.map_values(|d: Diff| diff_entries(d)),
        }
    }
}

impl Default for VoxelGrid {
    /// A grid of 384 x 128 x 256 voxels at 64 voxels per unit, with its floor.
    fn default() -> (g: Self)
        ensures
            g.wf(),
            g@.committed == slab(384, 2, 256, 100),
            g@.preview_is_empty(),
            g@.undo.len() == 0,
            g@.redo.len() == 0,
            g.spec_size() == [384usize, 128, 256],
            g.spec_density() == 64,
    {
        assert((384usize as i32) == 384i32 && (256usize as i32) == 256i32) by (bit_vector);
        Self::new([384, 128, 256], 64)
    }
}

impl VoxelGrid {
    /// The chunk map is exact (every chunk holds a voxel, every stored
    /// position lies inside its chunk) and the abstract state is valid.
    pub closed spec fn wf(&self) -> bool {
        &&& forall|ck: ChunkCoord| #[trigger]
            chunk_entries(self.chunks).dom().contains(ck) ==> chunk_entries(self.chunks)[ck].entries()
                != Map::<Coord, u8>::empty()
        &&& forall|ck: ChunkCoord, l: Coord|
            #![trigger chunk_entries(self.chunks)[ck].entries().dom().contains(l)]
            chunk_entries(self.chunks).dom().contains(ck)
                && chunk_entries(self.chunks)[ck].entries().dom().contains(l) ==> local_in_range(l)
                && chunk_entries(self.chunks)[ck].entries()[l] != 255
        &&& self@.valid()
    }

    /// A well-formed grid has a valid abstract state, so the laws stated
    /// over valid states hold of it.
    pub proof fn lemma_wf_valid(&self)
        requires
            self.wf(),
        ensures
            self@.valid(),
    {
    }

    /// The voxels per world unit.
    pub closed spec fn spec_density(&self) -> usize {
        self.density
    }

    /// The number of voxels along each axis.
    pub closed spec fn spec_size(&self) -> [usize; 3] {
        self.size
    }

    /// A grid of `size` voxels per axis with a floor two voxels thick of
    /// material 100 over the whole x/z extent, and an empty preview and history.
    /// The floor's extent is each size taken as an `i32` (wrapping), so a
    /// size past `i32::MAX` gives no floor along that axis.
    pub fn new(size: [usize; 3], density: usize) -> (g: Self)
        ensures
            g.wf(),
            g@.committed == slab(floor_extent(size[0]), 2, floor_extent(size[2]), 100),
            g@.added == Map::<Coord, u8>::empty(),
            g@.removed == Set::<Coord>::empty(),
            g@.undo == Seq::<Map<Coord, Change>>::empty(),
            g@.redo == Seq::<Map<Coord, Change>>::empty(),
            g.spec_size() == size,
            g.spec_density() == density,
    {
        let mut g = Self {
            chunks: chunk_map_new(),
            added: voxel_map_new(),
            removed: coord_set_new(),
            undo_stack: Vec::new(),
            redo_stack: Vec::new(),
            size: size,
            density: density,
        };
        let sx: i32 = #[verifier::truncate] (size[0] as i32);
        let sz: i32 = #[verifier::truncate] (size[2] as i32);
        assert(chunk_entries(g.chunks) =~= Map::<ChunkCoord, Chunk>::empty());
        assert(g@.committed =~= floor_progress(sx as int, 0, 0, 0));
        assert(g@.added =~= Map::<Coord, u8>::empty());
        assert(g@.removed =~= Set::<Coord>::empty());
        assert(g@.undo =~= Seq::<Map<Coord, Change>>::empty());
        assert(g@.redo =~= Seq::<Map<Coord, Change>>::empty());
        let mut z: i32 = 0;
        while z < sz
            invariant
                0 <= z <= nonneg(sz as int),
                sx as int == floor_extent(size[0]),
                sz as int == floor_extent(size[2]),
                g.wf(),
                g@.committed == floor_progress(sx as int, z as int, 0, 0),
                g@.added == Map::<Coord, u8>::empty(),
                g@.removed == Set::<Coord>::empty(),
                g@.undo == Seq::<Map<Coord, Change>>::empty(),
                g@.redo == Seq::<Map<Coord, Change>>::empty(),
                g.spec_size() == size,
                g.spec_density() == density,
            decreases sz - z,
        {
            let mut y: i32 = 0;
            while y < 2
                invariant
                    0 <= z < sz,
                    0 <= y <= 2,
                    sx as int == floor_extent(size[0]),
                    sz as int == floor_extent(size[2]),
                    g.wf(),
                    g@.committed == floor_progress(sx as int, z as int, y as int, 0),
                    g@.added == Map::<Coord, u8>::empty(),
                    g@.removed == Set::<Coord>::empty(),
                    g@.undo == Seq::<Map<Coord, Change>>::empty(),
                    g@.redo == Seq::<Map<Coord, Change>>::empty(),
                    g.spec_size() == size,
                    g.spec_density() == density,
                decreases 2 - y,
            {
                let mut x: i32 = 0;
                while x < sx
                    invariant
                        0 <= z < sz,
                        0 <= y < 2,
                        0 <= x <= nonneg(sx as int),
                        sx as int == floor_extent(size[0]),
                        sz as int == floor_extent(size[2]),
                        g.wf(),
                        g@.committed == floor_progress(sx as int, z as int, y as int, x as int),
                        g@.added == Map::<Coord, u8>::empty(),
                        g@.removed == Set::<Coord>::empty(),
                        g@.undo == Seq::<Map<Coord, Change>>::empty(),
                        g@.redo == Seq::<Map<Coord, Change>>::empty(),
                        g.spec_size() == size,
                        g.spec_density() == density,
                    decreases sx - x,
                {
                    g.set(x, y, z, 100);
                    assert(g@.committed =~= floor_progress(sx as int, z as int, y as int, x + 1));
                    x = x + 1;
                }
                assert(floor_progress(sx as int, z as int, y as int, x as int) =~= floor_progress(
                    sx as int,
                    z as int,
                    y + 1,
                    0,
                ));
                y = y + 1;
            }
            assert(floor_progress(sx as int, z as int, 2, 0) =~= floor_progress(
                sx as int,
                z + 1,
                0,
                0,
            ));
            z = z + 1;
        }
        assert(g@.committed =~= slab(sx as int, 2, sz as int, 100));
        g
    }

    /// The chunk that holds `coord` and the position inside it.
    pub fn split(coord: Coord) -> (r: (ChunkCoord, Coord))
        ensures
            r == (chunk_of(coord), local_of(coord)),
    {
        let (x, y, z) = coord;
        let cx = x >> 5u32;
        let lx = x & 31i32;
        let cy = y >> 5u32;
        let ly = y & 31i32;
        let cz = z >> 5u32;
        let lz = z & 31i32;
        ((cx, cy, cz), (lx, ly, lz))
    }

    /// The number of voxels along each axis.
    pub fn size(&self) -> (s: [usize; 3])
        ensures
            s == self.spec_size(),
    {
        self.size
    }

    /// The material at `(x, y, z)`: the preview first, then the committed voxels.
    pub fn get(&self, x: i32, y: i32, z: i32) -> (r: Option<u8>)
        requires
            self.wf(),
        ensures
            r == self@.read((x, y, z)),
    {
        let key = (x, y, z);
        if let Some(m) = voxel_map_get(&self.added, key) {
            return Some(m);
        }
        if coord_set_contains(&self.removed, key) {
            return None;
        }
        let (ck, local) = Self::split(key);
        proof {
            lemma_split(key, key);
        }
        match chunk_map_get(&self.chunks, ck) {
            Some(c) => c.get(local),
            None => None,
        }
    }

    /// Stores `mat` at `(x, y, z)` in the committed voxels (255 erases it)
    /// and returns what was stored there before. The preview is not consulted.
    pub fn set(&mut self, x: i32, y: i32, z: i32, mat: u8) -> (prev: Option<u8>)
        requires
            old(self).wf(),
        ensures
            final(self).wf(),
            final(self)@ == old(self)@.after_set((x, y, z), mat),
            prev == opt_get(old(self)@.committed, (x, y, z)),
            final(self).spec_size() == old(self).spec_size(),
            final(self).spec_density() == old(self).spec_density(),
    {
        let key = (x, y, z);
        let (ck, local) = Self::split(key);
        let ghost old_chunks = chunk_entries(self.chunks);
        let mut chunk = match chunk_map_remove(&mut self.chunks, ck) {
            Some(c) => c,
            None => Chunk::new(),
        };
        let ghost old_entries = chunk.entries();
        let prev = chunk.set(local, mat);
        let ghost new_entries = chunk.entries();
        let ghost nc = chunk;
        let empty = chunk.is_empty();
        if !empty {
            chunk_map_insert(&mut self.chunks, ck, chunk);
        }
        proof {
            lemma_split(key, key);
            let new_chunks = chunk_entries(self.chunks);
            lemma_chunk_update(old_chunks, new_chunks, key, mat, old_entries, new_entries, nc);
            let committed = self@.committed;
            assert(committed == set_voxel(old(self)@.committed, key, mat));
            assert forall|c: Coord| #[trigger] committed.dom().contains(c) implies committed[c]
                != 255 by {
                if c != key {
                    assert(old(self)@.committed.dom().contains(c));
                }
            }
            assert(self@.added == old(self)@.added);
            assert(self@.removed == old(self)@.removed);
            assert(old(self)@.valid());
            assert(self@.valid());
            assert(forall|ck: ChunkCoord| #[trigger]
                chunk_entries(self.chunks).dom().contains(ck) ==> chunk_entries(self.chunks)[ck].entries()
                    != Map::<Coord, u8>::empty());
        }
        prev
    }

    /// Stores material 0 at `(x, y, z)` and returns what was stored there before.
    pub fn remove(&mut self, x: i32, y: i32, z: i32) -> (prev: Option<u8>)
        requires
            old(self).wf(),
        ensures
            final(self).wf(),
            final(self)@ == old(self)@.after_set((x, y, z), 0),
            prev == opt_get(old(self)@.committed, (x, y, z)),
            final(self).spec_size() == old(self).spec_size(),
            final(self).spec_density() == old(self).spec_density(),
    {
        self.set(x, y, z, 0)
    }

    /// Shows material `m` at `(x, y, z)` in the preview.
    pub fn preview_add(&mut self, x: i32, y: i32, z: i32, m: u8)
        requires
            old(self).wf(),
        ensures
            final(self).wf(),
            final(self)@ == old(self)@.after_preview_add((x, y, z), m),
            final(self).spec_size() == old(self).spec_size(),
            final(self).spec_density() == old(self).spec_density(),
    {
        voxel_map_insert(&mut self.added, (x, y, z), m);
        coord_set_remove(&mut self.removed, (x, y, z));
        assert(self@ == old(self)@.after_preview_add((x, y, z), m));
        assert forall|c: Coord| #[trigger] self@.added.dom().contains(c) implies !self@.removed.contains(c) by {
            if c != (x, y, z) {
                assert(old(self)@.added.dom().contains(c));
            }
        }
    }

    /// Hides the voxel at `(x, y, z)` in the preview, if `get` reads one there.
    pub fn preview_remove(&mut self, x: i32, y: i32, z: i32)
        requires
            old(self).wf(),
        ensures
            final(self).wf(),
            final(self)@ == old(self)@.after_preview_remove((x, y, z)),
            final(self).spec_size() == old(self).spec_size(),
            final(self).spec_density() == old(self).spec_density(),
    {
        if self.get(x, y, z).is_some() {
            coord_set_insert(&mut self.removed, (x, y, z));
            voxel_map_remove(&mut self.added, (x, y, z));
        }
    }

    /// Drops the preview.
    pub fn clear_preview(&mut self)
        requires
            old(self).wf(),
        ensures
            final(self).wf(),
            final(self)@ == old(self)@.after_clear_preview(),
            final(self).spec_size() == old(self).spec_size(),
            final(self).spec_density() == old(self).spec_density(),
    {
        self.added = voxel_map_new();
        self.removed = coord_set_new();
        assert(self@.added =~= Map::<Coord, u8>::empty());
        assert(self@.removed =~= Set::<Coord>::empty());
    }

    /// Commits the preview as one undoable edit: hidden voxels get material
    /// 0, added voxels their material (255 erases), the edit goes on top of
    /// the undo stack and the redo stack is emptied. An empty preview does nothing.
    pub fn commit_preview(&mut self)
        requires
            old(self).wf(),
        ensures
            final(self).wf(),
            final(self)@ == old(self)@.after_commit(),
            final(self).spec_size() == old(self).spec_size(),
            final(self).spec_density() == old(self).spec_density(),
    {
        let added_empty = voxel_map_is_empty(&self.added);
        let removed_empty = coord_set_is_empty(&self.removed);
        if added_empty && removed_empty {
            assert(self@.added =~= Map::<Coord, u8>::empty());
            assert(self@.removed =~= Set::<Coord>::empty());
            return ;
        }
        let ghost g0 = self@;
        let ghost pd = g0.preview_diff();
        let mut added = voxel_map_new();
        std::mem::swap(&mut added, &mut self.added);
        let mut removed = coord_set_new();
        std::mem::swap(&mut removed, &mut self.removed);
        assert(self@.added =~= Map::<Coord, u8>::empty());
        assert(self@.removed =~= Set::<Coord>::empty());
        let ghost g1 = self@;
        let mut changes = change_map_new();
        assert(change_entries(changes) =~= Map::<Coord, Change>::empty());
        assert(overwrite(g0.committed, Map::<Coord, Change>::empty(), true) =~= g0.committed);

        // Hidden voxels first.
        let removed_list = coord_set_to_vec(&removed);
        let n = removed_list.len();
        let mut i: usize = 0;
        assert(pd.restrict(members_before(removed_list@, 0)) =~= Map::<Coord, Change>::empty());
        while i < n
            invariant
                self.wf(),
                n == removed_list@.len(),
                0 <= i <= n,
                lists_members(removed_list@, g0.removed),
                pd == g0.preview_diff(),
                g0.valid(),
                change_entries(changes) == pd.restrict(members_before(removed_list@, i as int)),
                self@ == (VoxelGridView {
                    committed: overwrite(g0.committed, change_entries(changes), true),
                    ..g1
                }),
                self.spec_size() == old(self).spec_size(),
                self.spec_density() == old(self).spec_density(),
            decreases n - i,
        {
            let c = removed_list[i];
            let ghost done = change_entries(changes);
            let ch = Change { prev: None, new: None };
            proof {
                assert(removed_list@[i as int] == c);
                assert(!done.dom().contains(c)) by {
                    if done.dom().contains(c) {
                        let j = choose|j: int| 0 <= j < i && #[trigger] removed_list@[j] == c;
                        assert(removed_list@[j] != removed_list@[i as int]);
                    }
                }
                lemma_overwrite_step(g0.committed, done, c, ch, true);
            }
            let prev = self.remove(c.0, c.1, c.2);
            let ch = Change { prev: prev, new: None };
            change_map_insert(&mut changes, c, ch);
            proof {
                lemma_overwrite_step(g0.committed, done, c, ch, true);
                lemma_set_is_write(overwrite(g0.committed, done, true), c, 0);
                assert(g0.removed.contains(c));
                assert(pd[c] == ch);
                assert(pd.restrict(members_before(removed_list@, i + 1)) =~= done.insert(c, ch));
            }
            i = i + 1;
        }
        let ghost after_removed = change_entries(changes);

        // Then added voxels.
        let added_list = voxel_map_to_vec(&added);
        let n2 = added_list.len();
        let mut k: usize = 0;
        assert(after_removed.union_prefer_right(pd.restrict(keys_before(added_list@, 0))) =~= after_removed);
        while k < n2
            invariant
                self.wf(),
                n2 == added_list@.len(),
                0 <= k <= n2,
                lists_entries(added_list@, g0.added),
                pd == g0.preview_diff(),
                g0.valid(),
                after_removed == pd.restrict(g0.removed),
                change_entries(changes) == after_removed.union_prefer_right(
                    pd.restrict(keys_before(added_list@, k as int)),
                ),
                self@ == (VoxelGridView {
                    committed: overwrite(g0.committed, change_entries(changes), true),
                    ..g1
                }),
                self.spec_size() == old(self).spec_size(),
                self.spec_density() == old(self).spec_density(),
            decreases n2 - k,
        {
            let (c, mat) = added_list[k];
            let ghost done = change_entries(changes);
            proof {
                assert(added_list@[k as int].0 == c);
                assert(g0.added.dom().contains(c));
                assert(!g0.removed.contains(c));
                assert(!done.dom().contains(c)) by {
                    if pd.restrict(keys_before(added_list@, k as int)).dom().contains(c) {
                        let j = choose|j: int| 0 <= j < k && (#[trigger] added_list@[j]).0 == c;
                        assert(added_list@[j].0 != added_list@[k as int].0);
                    }
                }
                lemma_overwrite_step(g0.committed, done, c, Change { prev: None, new: Some(mat) }, true);
            }
            let prev = self.set(c.0, c.1, c.2, mat);
            let ch = Change { prev: prev, new: Some(mat) };
            change_map_insert(&mut changes, c, ch);
            proof {
                lemma_overwrite_step(g0.committed, done, c, ch, true);
                lemma_set_is_write(overwrite(g0.committed, done, true), c, mat);
                assert(pd[c] == ch);
                assert(after_removed.union_prefer_right(pd.restrict(keys_before(added_list@, k + 1)))
                    =~= done.insert(c, ch));
            }
            k = k + 1;
        }
        proof {
            assert(pd.restrict(members_before(removed_list@, n as int)) =~= pd.restrict(g0.removed)) by {
                assert forall|c: Coord| g0.removed.contains(c) implies members_before(removed_list@, n as int).contains(c) by {
                    let j = choose|j: int| 0 <= j < removed_list@.len() && #[trigger] removed_list@[j] == c;
                }
            }
            assert(change_entries(changes) =~= pd) by {
                assert forall|c: Coord| g0.added.dom().contains(c) implies keys_before(added_list@, n2 as int).contains(c) by {
                    let j = choose|j: int| 0 <= j < added_list@.len() && (#[trigger] added_list@[j]).0 == c;
                }
            }
            lemma_overwrite_valid(g0.committed, pd, true);
        }
        let ghost undo_before = self@.undo;
        self.undo_stack.push(Diff { changes: changes });
        self.redo_stack.clear();
        proof {
            assert(self@.undo =~= undo_before.push(pd));
            assert(self@.redo =~= Seq::<Map<Coord, Change>>::empty());
            assert(!g0.preview_is_empty());
        }
    }

    /// Undoes the top edit of the undo stack, if any: every voxel it touched
    /// gets its previous material back (material 0 where there was none),
    /// and the edit moves to the redo stack. True when there was an edit.
    pub fn undo(&mut self) -> (b: bool)
        requires
            old(self).wf(),
        ensures
            final(self).wf(),
            final(self)@ == old(self)@.after_undo(),
            b == (old(self)@.undo.len() > 0),
            final(self).spec_size() == old(self).spec_size(),
            final(self).spec_density() == old(self).spec_density(),
    {
        let ghost g0 = self@;
        let diff = self.undo_stack.pop();
        match diff {
            Some(diff) => {
                assert(self@.undo =~= g0.undo.drop_last());
                self.apply_changes(&diff.changes, false);
                self.redo_stack.push(diff);
                assert(self@.redo =~= g0.redo.push(g0.undo.last()));
                true
            },
            None => false,
        }
    }

    /// Redoes the top edit of the redo stack, if any: every voxel it touched
    /// gets the material the edit wrote (material 0 for a hidden one), and
    /// the edit moves back to the undo stack. True when there was an edit.
    pub fn redo(&mut self) -> (b: bool)
        requires
            old(self).wf(),
        ensures
            final(self).wf(),
            final(self)@ == old(self)@.after_redo(),
            b == (old(self)@.redo.len() > 0),
            final(self).spec_size() == old(self).spec_size(),
            final(self).spec_density() == old(self).spec_density(),
    {
        let ghost g0 = self@;
        let diff = self.redo_stack.pop();
        match diff {
            Some(diff) => {
                assert(self@.redo =~= g0.redo.drop_last());
                self.apply_changes(&diff.changes, true);
                self.undo_stack.push(diff);
                assert(self@.undo =~= g0.undo.push(g0.redo.last()));
                true
            },
            None => false,
        }
    }

    /// Writes the chosen side of every change back into the committed voxels.
    fn apply_changes(&mut self, changes: &ChangeMap, use_new: bool)
        requires
            old(self).wf(),
        ensures
            final(self).wf(),
            final(self)@ == (VoxelGridView {
                committed: overwrite(old(self)@.committed, change_entries(*changes), use_new),
                ..old(self)@
            }),
            final(self).spec_size() == old(self).spec_size(),
            final(self).spec_density() == old(self).spec_density(),
    {
        let ghost g0 = self@;
        let ghost d = change_entries(*changes);
        let list = change_map_to_vec(changes);
        let n = list.len();
        let mut i: usize = 0;
        assert(d.restrict(keys_before(list@, 0)) =~= Map::<Coord, Change>::empty());
        assert(overwrite(g0.committed, Map::<Coord, Change>::empty(), use_new) =~= g0.committed);
        while i < n
            invariant
                self.wf(),
                n == list@.len(),
                0 <= i <= n,
                lists_entries(list@, d),
                self@ == (VoxelGridView {
                    committed: overwrite(g0.committed, d.restrict(keys_before(list@, i as int)), use_new),
                    ..g0
                }),
                self.spec_size() == old(self).spec_size(),
                self.spec_density() == old(self).spec_density(),
            decreases n - i,
        {
            let (c, ch) = list[i];
            let ghost done = d.restrict(keys_before(list@, i as int));
            proof {
                assert(list@[i as int].0 == c);
                assert(!done.dom().contains(c)) by {
                    if done.dom().contains(c) {
                        let j = choose|j: int| 0 <= j < i && (#[trigger] list@[j]).0 == c;
                        assert(list@[j].0 != list@[i as int].0);
                    }
                }
                lemma_overwrite_step(g0.committed, done, c, ch, use_new);
                assert(d.restrict(keys_before(list@, i + 1)) =~= done.insert(c, ch));
            }
            let v = if use_new {
                ch.new
            } else {
                ch.prev
            };
            match v {
                Some(mat) => {
                    self.set(c.0, c.1, c.2, mat);
                    proof {
                        lemma_set_is_write(overwrite(g0.committed, done, use_new), c, mat);
                    }
                },
                None => {
                    self.remove(c.0, c.1, c.2);
                    proof {
                        lemma_set_is_write(overwrite(g0.committed, done, use_new), c, 0);
                    }
                },
            }
            i = i + 1;
        }
        proof {
            assert(d.restrict(keys_before(list@, n as int)) =~= d) by {
                assert forall|k: Coord| d.dom().contains(k) implies keys_before(list@, n as int).contains(k) by {
                    let j = choose|j: int| 0 <= j < list@.len() && (#[trigger] list@[j]).0 == k;
                }
            }
        }
    }
}

} // verus!
