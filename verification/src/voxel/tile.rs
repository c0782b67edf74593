//! A small sparse block of voxels with a bounding box over the voxels it holds.

use vstd::prelude::*;

use crate::fxmaps::{
    lists_entries, opt_get, voxel_entries, voxel_map_get, voxel_map_insert, voxel_map_is_empty,
    voxel_map_new, voxel_map_to_vec, Coord, VoxelMap,
};
use crate::voxel::grid::slab;

verus! {

/// Coordinate `a` (0 for x, 1 for y, anything else for z) of `c`.
pub open spec fn axis(c: Coord, a: int) -> i32 {
    if a == 0 {
        c.0
    } else if a == 1 {
        c.1
    } else {
        c.2
    }
}

/// `v` is the least coordinate `a` over `s`, or `i32::MAX` when `s` is empty.
pub open spec fn is_least(s: Set<Coord>, a: int, v: i32) -> bool {
    if exists|c: Coord| s.contains(c) {
        &&& forall|c: Coord| s.contains(c) ==> v <= #[trigger] axis(c, a)
        &&& exists|c: Coord| s.contains(c) && #[trigger] axis(c, a) == v
    } else {
        v == i32::MAX
    }
}

/// `v` is the greatest coordinate `a` over `s`, or `i32::MIN` when `s` is empty.
pub open spec fn is_greatest(s: Set<Coord>, a: int, v: i32) -> bool {
    if exists|c: Coord| s.contains(c) {
        &&& forall|c: Coord| s.contains(c) ==> #[trigger] axis(c, a) <= v
        &&& exists|c: Coord| s.contains(c) && #[trigger] axis(c, a) == v
    } else {
        v == i32::MIN
    }
}

/// A box of voxel indices: the voxels from `min` to `max`, both included.
/// In local space it spans `min` to `max + 1` on each axis.
#[derive(Clone, Copy, PartialEq, Eq, Debug)]
pub struct VoxelBox {
    pub min: Coord,
    pub max: Coord,
}

/// A sparse block of voxels of `density` voxels per side.
#[derive(Clone)]
pub struct Tile {
    pub voxels: VoxelMap,
    pub density: usize,
    pub bbox: VoxelBox,
}

/// The keys of `v` before position `i`.
spec fn keys_before(v: Seq<(Coord, u8)>, i: int) -> Set<Coord> {
    Set::new(|k: Coord| exists|j: int| 0 <= j < i && (#[trigger] v[j]).0 == k)
}

impl Tile {
    /// What the tile holds, by local coordinate.
    pub open spec fn entries(&self) -> Map<Coord, u8> {
        voxel_entries(self.voxels)
    }

    /// A tile with a floor one voxel thick of material 200 over
    /// `0..density` in x and z, and the empty box from 0 to 0.
    pub fn new(density: usize) -> (t: Self)
        requires
            density <= i32::MAX,
        ensures
            t.entries() == slab(density as int, 1, density as int, 200),
            t.density == density,
            t.bbox == (VoxelBox { min: (0, 0, 0), max: (-1i32, -1i32, -1i32) }),
    {
        let mut voxels = voxel_map_new();
        let mut x: usize = 0;
        assert(voxel_entries(voxels) =~= floor_progress(density as int, 0, 0));
        while x < density
            invariant
                x <= density,
                density <= i32::MAX,
                voxel_entries(voxels) == floor_progress(density as int, x as int, 0),
            decreases density - x,
        {
            let mut z: usize = 0;
            while z < density
                invariant
                    x < density,
                    z <= density,
                    density <= i32::MAX,
                    voxel_entries(voxels) == floor_progress(density as int, x as int, z as int),
                decreases density - z,
            {
                voxel_map_insert(&mut voxels, (x as i32, 0, z as i32), 200);
                assert(voxel_entries(voxels) =~= floor_progress(density as int, x as int, z + 1));
                z = z + 1;
            }
            assert(floor_progress(density as int, x as int, density as int) =~= floor_progress(
                density as int,
                x + 1,
                0,
            ));
            x = x + 1;
        }
        assert(voxel_entries(voxels) =~= slab(density as int, 1, density as int, 200));
        Self { voxels, density, bbox: VoxelBox { min: (0, 0, 0), max: (-1i32, -1i32, -1i32) } }
    }

    /// The material at `local`, if any.
    pub fn get(&self, local: Coord) -> (r: Option<u8>)
        ensures
            r == opt_get(self.entries(), local),
    {
        voxel_map_get(&self.voxels, local)
    }

    /// Stores `mat` at `local`; the box is not updated.
    pub fn set(&mut self, local: Coord, mat: u8)
        ensures
            final(self).entries() == old(self).entries().insert(local, mat),
            final(self).density == old(self).density,
            final(self).bbox == old(self).bbox,
    {
        voxel_map_insert(&mut self.voxels, local, mat);
    }

    /// Whether the tile holds no voxel.
    pub fn is_empty(&self) -> (b: bool)
        ensures
            b == self.entries().dom().is_empty(),
    {
        voxel_map_is_empty(&self.voxels)
    }

    /// Sets the box to the least and greatest coordinates of the held voxels
    /// on each axis (`i32::MAX` and `i32::MIN` when the tile is empty).
    pub fn update_bbox(&mut self)
        ensures
            final(self).entries() == old(self).entries(),
            final(self).density == old(self).density,
            is_least(old(self).entries().dom(), 0, final(self).bbox.min.0),
            is_least(old(self).entries().dom(), 1, final(self).bbox.min.1),
            is_least(old(self).entries().dom(), 2, final(self).bbox.min.2),
            is_greatest(old(self).entries().dom(), 0, final(self).bbox.max.0),
            is_greatest(old(self).entries().dom(), 1, final(self).bbox.max.1),
            is_greatest(old(self).entries().dom(), 2, final(self).bbox.max.2),
    {
        let ghost m = self.entries();
        let list = voxel_map_to_vec(&self.voxels);
        let n = list.len();
        let mut lo: Coord = (i32::MAX, i32::MAX, i32::MAX);
        let mut hi: Coord = (i32::MIN, i32::MIN, i32::MIN);
        let mut i: usize = 0;
        while i < n
            invariant
                n == list@.len(),
                i <= n,
                lists_entries(list@, m),
                bounds_of(keys_before(list@, i as int), lo, hi),
            decreases n - i,
        {
            let (k, _v) = list[i];
            proof {
                assert(keys_before(list@, i + 1) =~= keys_before(list@, i as int).insert(k)) by {
                    assert(list@[i as int].0 == k);
                }
                lemma_bounds_insert(keys_before(list@, i as int), lo, hi, k);
            }
            if k.0 < lo.0 {
                lo.0 = k.0;
            }
            if k.1 < lo.1 {
                lo.1 = k.1;
            }
            if k.2 < lo.2 {
                lo.2 = k.2;
            }
            if k.0 > hi.0 {
                hi.0 = k.0;
            }
            if k.1 > hi.1 {
                hi.1 = k.1;
            }
            if k.2 > hi.2 {
                hi.2 = k.2;
            }
            i = i + 1;
        }
        proof {
            assert(keys_before(list@, n as int) =~= m.dom()) by {
                assert forall|k: Coord| m.dom().contains(k) implies keys_before(list@, n as int).contains(k) by {
                    let j = choose|j: int| 0 <= j < list@.len() && (#[trigger] list@[j]).0 == k;
                }
            }
        }
        self.bbox = VoxelBox { min: lo, max: hi };
    }
}

/// `lo` and `hi` are the least and greatest coordinates over `s` on each axis.
spec fn bounds_of(s: Set<Coord>, lo: Coord, hi: Coord) -> bool {
    &&& is_least(s, 0, lo.0)
    &&& is_least(s, 1, lo.1)
    &&& is_least(s, 2, lo.2)
    &&& is_greatest(s, 0, hi.0)
    &&& is_greatest(s, 1, hi.1)
    &&& is_greatest(s, 2, hi.2)
}

/// Taking one more coordinate into a least value.
proof fn lemma_least_insert(s: Set<Coord>, a: int, v: i32, k: Coord)
    requires
        is_least(s, a, v),
    ensures
        is_least(s.insert(k), a, if axis(k, a) < v { axis(k, a) } else { v }),
{
    let t = s.insert(k);
    assert(t.contains(k));
    if exists|c: Coord| s.contains(c) {
        let w = choose|c: Coord| s.contains(c) && #[trigger] axis(c, a) == v;
        assert(t.contains(w));
    }
}

/// Taking one more coordinate into a greatest value.
proof fn lemma_greatest_insert(s: Set<Coord>, a: int, v: i32, k: Coord)
    requires
        is_greatest(s, a, v),
    ensures
        is_greatest(s.insert(k), a, if axis(k, a) > v { axis(k, a) } else { v }),
{
    let t = s.insert(k);
    assert(t.contains(k));
    if exists|c: Coord| s.contains(c) {
        let w = choose|c: Coord| s.contains(c) && #[trigger] axis(c, a) == v;
        assert(t.contains(w));
    }
}

/// Taking one more coordinate into the bounds.
proof fn lemma_bounds_insert(s: Set<Coord>, lo: Coord, hi: Coord, k: Coord)
    requires
        bounds_of(s, lo, hi),
    ensures
        bounds_of(
            s.insert(k),
            (
                if k.0 < lo.0 { k.0 } else { lo.0 },
                if k.1 < lo.1 { k.1 } else { lo.1 },
                if k.2 < lo.2 { k.2 } else { lo.2 },
            ),
            (
                if k.0 > hi.0 { k.0 } else { hi.0 },
                if k.1 > hi.1 { k.1 } else { hi.1 },
                if k.2 > hi.2 { k.2 } else { hi.2 },
            ),
        ),
{
    lemma_least_insert(s, 0, lo.0, k);
    lemma_least_insert(s, 1, lo.1, k);
    lemma_least_insert(s, 2, lo.2, k);
    lemma_greatest_insert(s, 0, hi.0, k);
    lemma_greatest_insert(s, 1, hi.1, k);
    lemma_greatest_insert(s, 2, hi.2, k);
}

/// The floor after `x` full rows along z and `z` voxels of row `x`.
spec fn floor_progress(d: int, x: int, z: int) -> Map<Coord, u8> {
    Map::new(
        |c: Coord| c.1 == 0 && ((0 <= c.0 < x && 0 <= c.2 < d) || (c.0 == x && 0 <= c.2 < z)),
        |c: Coord| 200u8,
    )
}

} // verus!
