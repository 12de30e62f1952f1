//! Entity handles.
use vstd::prelude::*;

verus! {

/// An entity of the world, named by its index. An index is never given out
/// twice by one world.
#[derive(Clone, Copy, Debug, PartialEq, Eq, Hash, Structural)]
pub struct Ent {
    pub index: u32,
}

impl Ent {
    pub fn index(self) -> (r: u32)
        ensures
            r == self.index,
    {
        self.index
    }
}

impl Default for Ent {
    /// The handle that no world gives out.
    fn default() -> (r: Ent)
        ensures
            r.index == u32::MAX,
    {
        Ent { index: u32::MAX }
    }
}

} // verus!
