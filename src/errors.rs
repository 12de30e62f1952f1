//! Errors of entity lookups.
use vstd::prelude::*;

verus! {

#[derive(Clone, Copy, Debug, PartialEq, Eq, Structural)]
pub enum Error {
    /// The handle names no live entity.
    NoEntity,
    /// The world holds no resource of the asked type.
    NoResource,
    /// The entity has no component of the asked type.
    NoComponent,
    /// One entity was asked for twice where two distinct ones are needed.
    SameEntity,
    /// Every entity index has been given out.
    TooManyEntities,
}

} // verus!
