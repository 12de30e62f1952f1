//! The registry of live entities: handing out indices, despawning, and the
//! checked lookups, one entity or two distinct ones at once.
use vstd::prelude::*;

use crate::entity::Ent;
use crate::errors::Error;

verus! {

/// A set of entity indices, kept in a hash set of `hashbrown`.
#[verifier::external_body]
pub struct EntitySet {
    set: hashbrown::HashSet<u32>,
}

/// The indices that an `EntitySet` holds.
pub uninterp spec fn entity_set_contents(s: EntitySet) -> Set<u32>;

impl EntitySet {
    /// Relies on `hashbrown::HashSet::new`: the new set is empty.
    #[verifier::external_body]
    fn new() -> (r: EntitySet)
        ensures
            entity_set_contents(r) == Set::<u32>::empty(),
    {
        EntitySet { set: hashbrown::HashSet::new() }
    }

    /// Relies on `hashbrown::HashSet::insert`: the value is in the set after,
    /// and the result says whether it was absent before.
    #[verifier::external_body]
    fn insert(&mut self, v: u32) -> (r: bool)
        ensures
            entity_set_contents(*final(self)) == entity_set_contents(*old(self)).insert(v),
            r == !entity_set_contents(*old(self)).contains(v),
    {
        self.set.insert(v)
    }

    /// Relies on `hashbrown::HashSet::remove`: the value is gone after, and
    /// the result says whether it was present before.
    #[verifier::external_body]
    fn remove(&mut self, v: u32) -> (r: bool)
        ensures
            entity_set_contents(*final(self)) == entity_set_contents(*old(self)).remove(v),
            r == entity_set_contents(*old(self)).contains(v),
    {
        self.set.remove(&v)
    }

    /// Relies on `hashbrown::HashSet::contains`.
    #[verifier::external_body]
    fn contains(&self, v: u32) -> (r: bool)
        ensures
            r == entity_set_contents(*self).contains(v),
    {
        self.set.contains(&v)
    }

    /// Relies on `hashbrown::HashSet::len`: the number of values held.
    #[verifier::external_body]
    fn len(&self) -> (r: usize)
        ensures
            r == entity_set_contents(*self).len(),
    {
        self.set.len()
    }

    /// Relies on `hashbrown::HashSet::clear`: the set is empty after.
    #[verifier::external_body]
    fn clear(&mut self)
        ensures
            entity_set_contents(*final(self)) == Set::<u32>::empty(),
    {
        self.set.clear()
    }
}

/// The live entities of a world. Indices are handed out in increasing
/// order and never twice.
pub struct World {
    next_index: u32,
    entities: EntitySet,
}

impl World {
    /// The indices of the live entities.
    pub closed spec fn live(&self) -> Set<u32> {
        entity_set_contents(self.entities)
    }

    /// The index that the next spawn hands out.
    pub closed spec fn next(&self) -> u32 {
        self.next_index
    }

    /// Every live index was handed out before.
    pub closed spec fn well_formed(&self) -> bool {
        forall|i: u32| #[trigger] self.live().contains(i) ==> i < self.next_index
    }

    pub fn new() -> (r: World)
        ensures
            r.well_formed(),
            r.live() == Set::<u32>::empty(),
            r.next() == 0,
    {
        World { next_index: 0, entities: EntitySet::new() }
    }

    /// A new live entity with a fresh index; fails once all indices below
    /// `u32::MAX` are used up.
    pub fn spawn(&mut self) -> (r: Result<Ent, Error>)
        requires
            old(self).well_formed(),
        ensures
            final(self).well_formed(),
            old(self).next() == u32::MAX ==> r == Err::<Ent, Error>(Error::TooManyEntities)
                && final(self).live() == old(self).live() && final(self).next() == old(self).next(),
            old(self).next() < u32::MAX ==> r == Ok::<Ent, Error>(Ent { index: old(self).next() })
                && !old(self).live().contains(old(self).next())
                && final(self).live() == old(self).live().insert(old(self).next())
                && final(self).next() == old(self).next() + 1,
    {
        if self.next_index == u32::MAX {
            return Err(Error::TooManyEntities);
        }
        let ghost before = self.live();
        let index = self.next_index;
        self.next_index = self.next_index + 1;
        self.entities.insert(index);
        proof {
            assert forall|i: u32| #[trigger] self.live().contains(i) implies i
                < self.next_index by {
                if i != index {
                    assert(before.contains(i));
                }
            }
        }
        Ok(Ent { index })
    }

    /// Takes `ent` out of the world, if it is live.
    pub fn despawn(&mut self, ent: Ent)
        requires
            old(self).well_formed(),
        ensures
            final(self).well_formed(),
            final(self).live() == old(self).live().remove(ent.index),
            final(self).next() == old(self).next(),
    {
        let ghost before = self.live();
        self.entities.remove(ent.index);
        proof {
            assert forall|i: u32| #[trigger] self.live().contains(i) implies i
                < self.next_index by {
                assert(before.contains(i));
            }
        }
    }

    /// `ent` is live.
    pub fn contains(&self, ent: Ent) -> (r: bool)
        ensures
            r == self.live().contains(ent.index),
    {
        self.entities.contains(ent.index)
    }

    /// `ent` itself if it is live.
    pub fn get(&self, ent: Ent) -> (r: Result<Ent, Error>)
        ensures
            self.live().contains(ent.index) ==> r == Ok::<Ent, Error>(ent),
            !self.live().contains(ent.index) ==> r == Err::<Ent, Error>(Error::NoEntity),
    {
        if self.entities.contains(ent.index) {
            Ok(ent)
        } else {
            Err(Error::NoEntity)
        }
    }

    /// Two distinct live entities, for work that changes both at once.
    pub fn get_pair(&self, a: Ent, b: Ent) -> (r: Result<(Ent, Ent), Error>)
        ensures
            a == b ==> r == Err::<(Ent, Ent), Error>(Error::SameEntity),
            a != b && !(self.live().contains(a.index) && self.live().contains(b.index)) ==> r
                == Err::<(Ent, Ent), Error>(Error::NoEntity),
            a != b && self.live().contains(a.index) && self.live().contains(b.index) ==> r == Ok::<
                (Ent, Ent),
                Error,
            >((a, b)),
    {
        if a == b {
            return Err(Error::SameEntity);
        }
        if self.entities.contains(a.index) && self.entities.contains(b.index) {
            Ok((a, b))
        } else {
            Err(Error::NoEntity)
        }
    }

    /// The number of live entities.
    pub fn ents_count(&self) -> (r: usize)
        ensures
            r == self.live().len(),
    {
        self.entities.len()
    }

    /// Takes every entity out; indices already handed out stay used.
    pub fn clear_entities(&mut self)
        requires
            old(self).well_formed(),
        ensures
            final(self).well_formed(),
            final(self).live() == Set::<u32>::empty(),
            final(self).next() == old(self).next(),
    {
        self.entities.clear();
    }
}

} // verus!
