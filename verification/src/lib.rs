//! Core logic of a voxel editor: sparse and dense voxel storage with a
//! preview that is committed as undoable edits, palette parsing, a linear
//! undo history, tile selection, and the state and layout of the editor's
//! widgets.

pub mod codeeditor;
pub mod context;
pub mod editor;
pub mod fxmaps;
pub mod ident;
pub mod object;
pub mod palette;
pub mod pattern;
pub mod shape;
pub mod tile;
pub mod tilemapeditor;
pub mod tool;
pub mod ui;
pub mod undo;
pub mod voxel;
pub mod world;
pub mod script;
