//! A Voronoi cell pattern. Its coloring works on floating point positions
//! and is done by the caller; this is its identity.

use uuid::Uuid;
use vstd::prelude::*;


use crate::ident::{new_random_id, uuid_bits};

verus! {

/// A Voronoi pattern, known by a random identifier.
#[derive(Clone, Copy)]
pub struct Voronoi {
    id: Uuid,
}

impl Voronoi {
    /// The identifier the pattern was made with.
    pub closed spec fn ident(&self) -> Uuid {
        self.id
    }

    /// A pattern with a fresh random identifier of version 4 and the RFC
    /// variant.
    pub fn new() -> (v: Self)
        ensures
            uuid_bits(v.ident()) & 0xF000_C000_0000_0000_0000u128 == 0x4000_8000_0000_0000_0000u128,
    {
        Self { id: new_random_id() }
    }

    /// The pattern's identifier.
    pub fn id(&self) -> (i: Uuid)
        ensures
            i == self.ident(),
    {
        self.id
    }

    /// The pattern's display name.
    pub fn name(&self) -> (n: String)
        ensures
            n@ == "Voronoi"@,
    {
        String::from_str("Voronoi")
    }
}

} // verus!
