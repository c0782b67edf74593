# voxel_editor

The core of a voxel editor, written in Verus and proved against its
contracts.

- `src/voxel/grid.rs` — a sparse voxel grid in 32³ chunks with a preview
  overlay; committing the preview records an edit that undo and redo replay.
  Its abstract state (`VoxelGridView`) and the properties that relate the
  operations (`src/voxel/properties.rs`) are stated over `vstd` maps.
- `src/voxel/tile.rs`, `src/tile.rs` — a sparse block of voxels with its
  bounding box, and a dense cube of voxels that can be rescaled.
- `src/palette.rs` — the Paint.NET palette text format.
- `src/undo/character_undo.rs` — a linear undo history.
- `src/ui/` — widget state, hit testing and panel layout, and the icon
  table (PNG files decoded through `png`); `src/editor.rs` — tile selection.
- `src/tilemapeditor.rs` — the add mode of the tilemap editor and the pixel
  region of a multi tile.
- `src/fxmaps.rs`, `src/ident.rs` — the hash maps of `rustc-hash` and the
  random identifiers of `uuid`, used through contracts stated on their methods.

`app/` is the program around the library: rendering and ray casting (in
floating point), asset loading, and the window of `theframework`.
