//! Patterns that color the faces of voxels.

pub mod voronoi;

use vstd::prelude::*;

verus! {

/// The kinds of pattern.
#[derive(Clone, Copy, Debug, PartialEq, Eq, Structural)]
pub enum PatternType {
    Solid,
    Noise,
}

} // verus!
