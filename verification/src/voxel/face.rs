use vstd::prelude::*;

verus! {

/// The face of a voxel that a ray entered through.
#[derive(Debug, Clone, Copy, PartialEq, Eq, Structural)]
pub enum Face {
    PX,
    NX,
    PY,
    NY,
    PZ,
    NZ,
}

} // verus!
