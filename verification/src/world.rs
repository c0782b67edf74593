//! The world: dense tiles placed at integer tile coordinates.

use vstd::prelude::*;

use crate::fxmaps::{tile_entries, tile_map_get, tile_map_insert, tile_map_new, Coord, TileMap};
use crate::tile::{cube, Tile};
use crate::tool::Tool;

verus! {

/// A copy of `t`: the same side and the same voxels.
fn copy_tile(t: &Tile) -> (c: Tile)
    ensures
        c.size == t.size,
        c.data@ == t.data@,
{
    let data = t.data.clone();
    proof {
        assert forall|i: int| 0 <= i < data@.len() implies data@[i] == t.data@[i] by {
            assert(cloned::<Option<u8>>(t.data@[i], data@[i]));
        }
        assert(data@ =~= t.data@);
    }
    Tile { size: t.size, data }
}

/// The tiles of the world, whether it must be drawn again, and the tool
/// applied to it.
#[derive(Clone)]
pub struct World {
    pub tiles: TileMap,
    pub needs_update: bool,
    pub curr_tool: Tool,
}

impl World {
    /// What the world holds, by tile coordinate.
    pub open spec fn tiles_view(&self) -> Map<Coord, Tile> {
        tile_entries(self.tiles)
    }

    /// A world of three fresh tiles of side 9 in a row along x, at
    /// `(-1, 0, 0)`, `(0, 0, 0)` and `(1, 0, 0)`, to be drawn.
    pub fn new() -> (w: Self)
        ensures
            w.tiles_view().dom() == set![(-1i32, 0i32, 0i32), (0i32, 0i32, 0i32), (1i32, 0i32, 0i32)],
            forall|k: Coord| #[trigger] w.tiles_view().dom().contains(k) ==> w.tiles_view()[k].size == 9
                && w.tiles_view()[k].wf()
                && forall|i: int| 0 <= i < w.tiles_view()[k].data@.len() ==> w.tiles_view()[k].data@[i] == Some(0u8),
            w.needs_update,
            w.curr_tool.widget_values@.len() == 0,
    {
        let mut tiles = tile_map_new();
        assert(cube(9) == 729);
        tile_map_insert(&mut tiles, (-1, 0, 0), Tile::new(9));
        tile_map_insert(&mut tiles, (0, 0, 0), Tile::new(9));
        tile_map_insert(&mut tiles, (1, 0, 0), Tile::new(9));
        assert(tile_entries(tiles).dom() =~= set![(-1i32, 0i32, 0i32), (0i32, 0i32, 0i32), (1i32, 0i32, 0i32)]);
        Self { tiles, needs_update: true, curr_tool: Tool::new(String::new()) }
    }

    /// A copy of the tile at `at`, if there is one.
    pub fn get_tile(&self, at: Coord) -> (r: Option<Tile>)
        ensures
            match r {
                Some(t) => self.tiles_view().dom().contains(at) && t.size == self.tiles_view()[at].size
                    && t.data@ == self.tiles_view()[at].data@,
                None => !self.tiles_view().dom().contains(at),
            },
    {
        match tile_map_get(&self.tiles, at) {
            Some(t) => Some(copy_tile(t)),
            None => None,
        }
    }

    /// Places `tile` at `at`, replacing the tile there.
    pub fn set_tile(&mut self, at: Coord, tile: Tile)
        ensures
            final(self).tiles_view() == old(self).tiles_view().insert(at, tile),
            final(self).needs_update == old(self).needs_update,
            final(self).curr_tool == old(self).curr_tool,
    {
        tile_map_insert(&mut self.tiles, at, tile);
    }
}

/// After placing a tile at `at`, the world holds that tile there, and
/// every other place holds what it held before.
pub proof fn lemma_get_after_set(before: Map<Coord, Tile>, after: Map<Coord, Tile>, at: Coord, tile: Tile, other: Coord)
    requires
        after == before.insert(at, tile),
        other != at,
    ensures
        after.dom().contains(at),
        after[at] == tile,
        after.dom().contains(other) == before.dom().contains(other),
        before.dom().contains(other) ==> after[other] == before[other],
{
}

} // verus!
