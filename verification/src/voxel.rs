pub mod face;
pub mod grid;
pub mod properties;
pub mod tile;
