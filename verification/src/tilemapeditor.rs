//! The state of the tilemap editor: which tilemap it edits and how a
//! selection becomes tiles.

use uuid::Uuid;
use vstd::prelude::*;

use crate::ident::{new_random_id, uuid_bits};

verus! {

/// How the selected regions of a tilemap become tiles.
#[derive(Clone, Copy, Debug, PartialEq, Eq, Structural)]
pub enum AddMode {
    /// Each selected region becomes a tile of its own.
    Single,
    /// The selected regions become the frames of one animated tile.
    Anim,
    /// The bounding box of the selection becomes one large tile.
    Multi,
}

/// The mode chosen at position `index` of the mode switch.
pub open spec fn mode_at(index: i32) -> AddMode {
    if index == 0 {
        AddMode::Single
    } else if index == 1 {
        AddMode::Anim
    } else {
        AddMode::Multi
    }
}

/// The grid size of the tilemap: its own when it has one, else 16 pixels.
pub open spec fn grid_or_default(grid_size: Option<usize>) -> usize {
    match grid_size {
        Some(g) => g,
        None => 16,
    }
}

/// A cell coordinate or extent taken as a pixel count (wrapping, as a
/// cast from `i32` does).
pub open spec fn cells(v: i32) -> usize {
    v as usize
}

/// The pixel region `(x, y, width, height)` that a multi tile takes: the
/// selection's cell rectangle `dim` (x, y, width, height in cells) times
/// the tilemap's grid size (16 when the tilemap has none).
pub fn multi_tile_region(dim: (i32, i32, i32, i32), grid_size: Option<usize>) -> (r: (
    usize,
    usize,
    usize,
    usize,
))
    requires
        cells(dim.0) * grid_or_default(grid_size) <= usize::MAX,
        cells(dim.1) * grid_or_default(grid_size) <= usize::MAX,
        cells(dim.2) * grid_or_default(grid_size) <= usize::MAX,
        cells(dim.3) * grid_or_default(grid_size) <= usize::MAX,
    ensures
        r == (
            (cells(dim.0) * grid_or_default(grid_size)) as usize,
            (cells(dim.1) * grid_or_default(grid_size)) as usize,
            (cells(dim.2) * grid_or_default(grid_size)) as usize,
            (cells(dim.3) * grid_or_default(grid_size)) as usize,
        ),
{
    let g: usize = match grid_size {
        Some(g) => g,
        None => 16,
    };
    let x: usize = #[verifier::truncate] (dim.0 as usize);
    let y: usize = #[verifier::truncate] (dim.1 as usize);
    let w: usize = #[verifier::truncate] (dim.2 as usize);
    let h: usize = #[verifier::truncate] (dim.3 as usize);
    (x * g, y * g, w * g, h * g)
}

/// The tilemap editor's state.
pub struct TilemapEditor {
    curr_tilemap_id: Uuid,
    add_mode: AddMode,
}

impl TilemapEditor {
    /// The identifier of the tilemap being edited.
    pub closed spec fn tilemap_id(&self) -> Uuid {
        self.curr_tilemap_id
    }

    /// The current add mode.
    pub closed spec fn mode(&self) -> AddMode {
        self.add_mode
    }

    /// An editor for a fresh random tilemap identifier (version 4, RFC
    /// variant), adding single tiles.
    pub fn new() -> (e: Self)
        ensures
            e.mode() == AddMode::Single,
            uuid_bits(e.tilemap_id()) & 0xF000_C000_0000_0000_0000u128 == 0x4000_8000_0000_0000_0000u128,
    {
        Self { curr_tilemap_id: new_random_id(), add_mode: AddMode::Single }
    }

    /// The identifier of the tilemap being edited.
    pub fn curr_tilemap_id(&self) -> (id: Uuid)
        ensures
            id == self.tilemap_id(),
    {
        self.curr_tilemap_id
    }

    /// The current add mode.
    pub fn add_mode(&self) -> (m: AddMode)
        ensures
            m == self.mode(),
    {
        self.add_mode
    }

    /// Edits the tilemap `id` from now on.
    pub fn set_curr_tilemap_id(&mut self, id: Uuid)
        ensures
            final(self).tilemap_id() == id,
            final(self).mode() == old(self).mode(),
    {
        self.curr_tilemap_id = id;
    }

    /// Takes the mode at position `index` of the mode switch: 0 single,
    /// 1 animation, anything else multi.
    pub fn set_add_mode_index(&mut self, index: i32)
        ensures
            final(self).mode() == mode_at(index),
            final(self).tilemap_id() == old(self).tilemap_id(),
    {
        if index == 0 {
            self.add_mode = AddMode::Single;
        } else if index == 1 {
            self.add_mode = AddMode::Anim;
        } else {
            self.add_mode = AddMode::Multi;
        }
    }
}

} // verus!
