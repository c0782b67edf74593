//! The hash maps and sets of `rustc_hash` that the voxel containers are
//! built on. Each map type has a name for what it holds and one wrapper per
//! method that the containers call.

use rustc_hash::{FxBuildHasher, FxHashMap, FxHashSet};
use vstd::prelude::*;

use crate::tile::Tile;
use crate::voxel::grid::{Change, Chunk};

verus! {

/// The hasher builder of `rustc_hash`, carried through as an opaque value.
#[verifier::external_type_specification]
#[verifier::external_body]
pub struct ExFxBuildHasher(FxBuildHasher);

/// A voxel key (or chunk key): three integer coordinates.
pub type Coord = (i32, i32, i32);

/// Voxel material by coordinate.
pub type VoxelMap = FxHashMap<Coord, u8>;

/// Chunks by chunk coordinate.
pub type ChunkMap = FxHashMap<Coord, Chunk>;

/// A set of voxel coordinates.
pub type CoordSet = FxHashSet<Coord>;

/// The changes of one edit, by voxel coordinate.
pub type ChangeMap = FxHashMap<Coord, Change>;

/// Dense tiles by tile coordinate.
pub type TileMap = FxHashMap<Coord, Tile>;

/// `Some(m[k])` when `k` is a key of `m`, else `None`.
pub open spec fn opt_get<K, V>(m: Map<K, V>, k: K) -> Option<V> {
    if m.dom().contains(k) {
        Some(m[k])
    } else {
        None
    }
}

/// What a `VoxelMap` holds.
pub uninterp spec fn voxel_entries(m: FxHashMap<Coord, u8>) -> Map<Coord, u8>;

/// What a `ChunkMap` holds.
pub uninterp spec fn chunk_entries(m: FxHashMap<Coord, Chunk>) -> Map<Coord, Chunk>;

/// What a `CoordSet` holds.
pub uninterp spec fn coord_members(s: FxHashSet<Coord>) -> Set<Coord>;

/// What a `ChangeMap` holds.
pub uninterp spec fn change_entries(m: FxHashMap<Coord, Change>) -> Map<Coord, Change>;

/// What a `TileMap` holds.
pub uninterp spec fn tile_entries(m: FxHashMap<Coord, Tile>) -> Map<Coord, Tile>;

/// True when the keys of `v` are pairwise distinct and are exactly the keys of
/// `m`, each paired with its value in `m`.
pub open spec fn lists_entries<V>(v: Seq<(Coord, V)>, m: Map<Coord, V>) -> bool {
    &&& forall|i: int, j: int| 0 <= i < j < v.len() ==> (#[trigger] v[i]).0 != (#[trigger] v[j]).0
    &&& forall|i: int| 0 <= i < v.len() ==> m.dom().contains((#[trigger] v[i]).0) && m[v[i].0] == v[i].1
    &&& forall|k: Coord| m.dom().contains(k) ==> exists|i: int| 0 <= i < v.len() && (#[trigger] v[i]).0 == k
}

/// True when the elements of `v` are pairwise distinct and are exactly the members of `s`.
pub open spec fn lists_members(v: Seq<Coord>, s: Set<Coord>) -> bool {
    &&& forall|i: int, j: int| 0 <= i < j < v.len() ==> #[trigger] v[i] != #[trigger] v[j]
    &&& forall|i: int| 0 <= i < v.len() ==> s.contains(#[trigger] v[i])
    &&& forall|k: Coord| s.contains(k) ==> exists|i: int| 0 <= i < v.len() && #[trigger] v[i] == k
}

// ----- VoxelMap -----

/// `FxHashMap::default()`: a map that holds nothing.
#[verifier::external_body]
pub(crate) fn voxel_map_new() -> (fresh: VoxelMap)
    ensures
        voxel_entries(fresh).dom().is_empty(),
{
    FxHashMap::default()
}

/// `HashMap::get`, copied out: the value stored under `k`, if any.
#[verifier::external_body]
pub(crate) fn voxel_map_get(m: &VoxelMap, k: Coord) -> (r: Option<u8>)
    ensures
        r == opt_get(voxel_entries(*m), k),
{
    m.get(&k).copied()
}

/// `HashMap::insert`: stores `v` under `k` and returns what was stored there before.
#[verifier::external_body]
pub(crate) fn voxel_map_insert(m: &mut VoxelMap, k: Coord, v: u8) -> (r: Option<u8>)
    ensures
        voxel_entries(*final(m)) == voxel_entries(*old(m)).insert(k, v),
        r == opt_get(voxel_entries(*old(m)), k),
{
    m.insert(k, v)
}

/// `HashMap::remove`: drops the entry under `k` and returns its value, if any.
#[verifier::external_body]
pub(crate) fn voxel_map_remove(m: &mut VoxelMap, k: Coord) -> (r: Option<u8>)
    ensures
        voxel_entries(*final(m)) == voxel_entries(*old(m)).remove(k),
        r == opt_get(voxel_entries(*old(m)), k),
{
    m.remove(&k)
}

/// `HashMap::is_empty`: whether the map holds no entry.
#[verifier::external_body]
pub(crate) fn voxel_map_is_empty(m: &VoxelMap) -> (b: bool)
    ensures
        b == voxel_entries(*m).dom().is_empty(),
{
    m.is_empty()
}

/// `HashMap::iter`, each entry copied out: every entry once, in the map's order.
#[verifier::external_body]
pub(crate) fn voxel_map_to_vec(m: &VoxelMap) -> (v: Vec<(Coord, u8)>)
    ensures
        lists_entries(v@, voxel_entries(*m)),
{
    m.iter().map(|(k, v)| (*k, *v)).collect()
}

// ----- ChunkMap -----

/// `FxHashMap::default()`: a map that holds no chunk.
#[verifier::external_body]
pub(crate) fn chunk_map_new() -> (fresh: ChunkMap)
    ensures
        chunk_entries(fresh).dom().is_empty(),
{
    FxHashMap::default()
}

/// `HashMap::get`: the chunk stored under `k`, if any.
#[verifier::external_body]
pub(crate) fn chunk_map_get(m: &ChunkMap, k: Coord) -> (r: Option<&Chunk>)
    ensures
        match r {
            Some(c) => chunk_entries(*m).dom().contains(k) && *c == chunk_entries(*m)[k],
            None => !chunk_entries(*m).dom().contains(k),
        },
{
    m.get(&k)
}

/// `HashMap::insert`: stores `c` under `k`; what was stored there before is dropped.
#[verifier::external_body]
pub(crate) fn chunk_map_insert(m: &mut ChunkMap, k: Coord, c: Chunk)
    ensures
        chunk_entries(*final(m)) == chunk_entries(*old(m)).insert(k, c),
{
    m.insert(k, c);
}

/// `HashMap::remove`: takes the chunk stored under `k` out of the map, if any.
#[verifier::external_body]
pub(crate) fn chunk_map_remove(m: &mut ChunkMap, k: Coord) -> (r: Option<Chunk>)
    ensures
        chunk_entries(*final(m)) == chunk_entries(*old(m)).remove(k),
        r == opt_get(chunk_entries(*old(m)), k),
{
    m.remove(&k)
}

// ----- CoordSet -----

/// `FxHashSet::default()`: a set with no member.
#[verifier::external_body]
pub(crate) fn coord_set_new() -> (fresh: CoordSet)
    ensures
        coord_members(fresh) == Set::<Coord>::empty(),
{
    FxHashSet::default()
}

/// `HashSet::contains`.
#[verifier::external_body]
pub(crate) fn coord_set_contains(s: &CoordSet, k: Coord) -> (b: bool)
    ensures
        b == coord_members(*s).contains(k),
{
    s.contains(&k)
}

/// `HashSet::insert`: adds `k`; true when it was not a member before.
#[verifier::external_body]
pub(crate) fn coord_set_insert(s: &mut CoordSet, k: Coord) -> (b: bool)
    ensures
        coord_members(*final(s)) == coord_members(*old(s)).insert(k),
        b == !coord_members(*old(s)).contains(k),
{
    s.insert(k)
}

/// `HashSet::remove`: drops `k`; true when it was a member before.
#[verifier::external_body]
pub(crate) fn coord_set_remove(s: &mut CoordSet, k: Coord) -> (b: bool)
    ensures
        coord_members(*final(s)) == coord_members(*old(s)).remove(k),
        b == coord_members(*old(s)).contains(k),
{
    s.remove(&k)
}

/// `HashSet::is_empty`.
#[verifier::external_body]
pub(crate) fn coord_set_is_empty(s: &CoordSet) -> (b: bool)
    ensures
        b == (coord_members(*s) == Set::<Coord>::empty()),
{
    s.is_empty()
}

/// `HashSet::iter`, each member copied out: every member once, in the set's order.
#[verifier::external_body]
pub(crate) fn coord_set_to_vec(s: &CoordSet) -> (v: Vec<Coord>)
    ensures
        lists_members(v@, coord_members(*s)),
{
    s.iter().copied().collect()
}

// ----- ChangeMap -----

/// `FxHashMap::default()`: a map that holds no change.
#[verifier::external_body]
pub(crate) fn change_map_new() -> (fresh: ChangeMap)
    ensures
        change_entries(fresh).dom().is_empty(),
{
    FxHashMap::default()
}

/// `HashMap::insert`: stores `c` under `k`; what was stored there before is dropped.
#[verifier::external_body]
pub(crate) fn change_map_insert(m: &mut ChangeMap, k: Coord, c: Change)
    ensures
        change_entries(*final(m)) == change_entries(*old(m)).insert(k, c),
{
    m.insert(k, c);
}

/// `HashMap::iter`, each entry copied out: every entry once, in the map's order.
#[verifier::external_body]
pub(crate) fn change_map_to_vec(m: &ChangeMap) -> (v: Vec<(Coord, Change)>)
    ensures
        lists_entries(v@, change_entries(*m)),
{
    m.iter().map(|(k, c)| (*k, *c)).collect()
}

// ----- TileMap -----

/// `FxHashMap::default()`: a map that holds no tile.
#[verifier::external_body]
pub(crate) fn tile_map_new() -> (fresh: TileMap)
    ensures
        tile_entries(fresh).dom().is_empty(),
{
    FxHashMap::default()
}

/// `HashMap::get`: the tile stored under `k`, if any.
#[verifier::external_body]
pub(crate) fn tile_map_get(m: &TileMap, k: Coord) -> (r: Option<&Tile>)
    ensures
        match r {
            Some(t) => tile_entries(*m).dom().contains(k) && *t == tile_entries(*m)[k],
            None => !tile_entries(*m).dom().contains(k),
        },
{
    m.get(&k)
}

/// `HashMap::insert`: stores `t` under `k`; what was stored there before is dropped.
#[verifier::external_body]
pub(crate) fn tile_map_insert(m: &mut TileMap, k: Coord, t: Tile)
    ensures
        tile_entries(*final(m)) == tile_entries(*old(m)).insert(k, t),
{
    m.insert(k, t);
}

} // verus!
