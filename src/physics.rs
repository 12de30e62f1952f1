//! Physics modes and collision groups of an entity, and the per-pair
//! decisions of the broad phase that depend on them alone.
use vstd::prelude::*;

verus! {

/// Bit of a mode: the entity collides with the tile map.
pub const COLLIDES_WORLD: u8 = 2;

/// Bit of a mode: the entity is moved out of the way by any other.
pub const COLLIDES_LITE: u8 = 16;

/// Bit of a mode: the entity collides with active entities only.
pub const COLLIDES_PASSIVE: u8 = 32;

/// Bit of a mode: the entity collides with all other collidable entities.
pub const COLLIDES_ACTIVE: u8 = 64;

/// Bit of a mode: the entity is never moved by another.
pub const COLLIDES_FIXED: u8 = 128;

/// Bit of a physics level: the entity moves by its velocity.
pub const PHYSICS_MOVE: u8 = 1;

/// How an entity takes part in the simulation. The levels are bit patterns
/// whose numeric order is the order "at least": each collidable level holds
/// the bits of `WORLD`, which holds the bit of `MOVE`.
#[derive(Clone, Copy, Debug, PartialEq, Eq, Structural)]
pub struct EntPhysics {
    pub bits: u8,
}

/// One of the collision bits of `EntPhysics`.
#[derive(Clone, Copy, Debug, PartialEq, Eq, Structural)]
pub struct EntCollidesMode {
    pub bits: u8,
}

/// A set of collision groups, one bit each.
#[derive(Clone, Copy, Debug, PartialEq, Eq, Structural)]
pub struct EntGroup {
    pub bits: u8,
}

impl EntPhysics {
    /// Not moved and not collided.
    pub fn none() -> (r: EntPhysics)
        ensures
            r.bits == 0,
    {
        EntPhysics { bits: 0 }
    }

    /// Moved by its velocity, never collided.
    pub fn moving() -> (r: EntPhysics)
        ensures
            r.bits == PHYSICS_MOVE,
    {
        EntPhysics { bits: PHYSICS_MOVE }
    }

    /// Moved and collided with the tile map.
    pub fn world() -> (r: EntPhysics)
        ensures
            r.bits == PHYSICS_MOVE | COLLIDES_WORLD,
    {
        EntPhysics { bits: PHYSICS_MOVE | COLLIDES_WORLD }
    }

    /// Collided with the map and with active entities, and always the one
    /// that gives way.
    pub fn lite() -> (r: EntPhysics)
        ensures
            r.bits == PHYSICS_MOVE | COLLIDES_WORLD | COLLIDES_LITE,
    {
        EntPhysics { bits: PHYSICS_MOVE | COLLIDES_WORLD | COLLIDES_LITE }
    }

    /// Collided with the map and with active entities.
    pub fn passive() -> (r: EntPhysics)
        ensures
            r.bits == PHYSICS_MOVE | COLLIDES_WORLD | COLLIDES_PASSIVE,
    {
        EntPhysics { bits: PHYSICS_MOVE | COLLIDES_WORLD | COLLIDES_PASSIVE }
    }

    /// Collided with the map and with every collidable entity.
    pub fn active() -> (r: EntPhysics)
        ensures
            r.bits == PHYSICS_MOVE | COLLIDES_WORLD | COLLIDES_ACTIVE,
    {
        EntPhysics { bits: PHYSICS_MOVE | COLLIDES_WORLD | COLLIDES_ACTIVE }
    }

    /// Collided with everything, and never the one that gives way.
    pub fn fixed() -> (r: EntPhysics)
        ensures
            r.bits == PHYSICS_MOVE | COLLIDES_WORLD | COLLIDES_FIXED,
    {
        EntPhysics { bits: PHYSICS_MOVE | COLLIDES_WORLD | COLLIDES_FIXED }
    }

    /// The level with exactly these bits.
    pub fn from_bits(bits: u8) -> (r: EntPhysics)
        ensures
            r.bits == bits,
    {
        EntPhysics { bits }
    }

    pub fn bits(self) -> (r: u8)
        ensures
            r == self.bits,
    {
        self.bits
    }

    /// Every bit of `other` is set in `self`.
    pub fn contains(self, other: EntPhysics) -> (r: bool)
        ensures
            r == (self.bits & other.bits == other.bits),
    {
        self.bits & other.bits == other.bits
    }

    /// `self` is `physics` or a level above it.
    pub fn is_at_least(self, physics: EntPhysics) -> (r: bool)
        ensures
            r == (self.bits >= physics.bits),
    {
        self.bits >= physics.bits
    }

    /// `self` has the collision bit `mode`.
    pub fn is_collide_mode(self, mode: EntCollidesMode) -> (r: bool)
        ensures
            r == (self.bits & mode.bits != 0),
    {
        self.bits & mode.bits != 0
    }
}

impl EntCollidesMode {
    pub fn world() -> (r: EntCollidesMode)
        ensures
            r.bits == COLLIDES_WORLD,
    {
        EntCollidesMode { bits: COLLIDES_WORLD }
    }

    pub fn lite() -> (r: EntCollidesMode)
        ensures
            r.bits == COLLIDES_LITE,
    {
        EntCollidesMode { bits: COLLIDES_LITE }
    }

    pub fn passive() -> (r: EntCollidesMode)
        ensures
            r.bits == COLLIDES_PASSIVE,
    {
        EntCollidesMode { bits: COLLIDES_PASSIVE }
    }

    pub fn active() -> (r: EntCollidesMode)
        ensures
            r.bits == COLLIDES_ACTIVE,
    {
        EntCollidesMode { bits: COLLIDES_ACTIVE }
    }

    pub fn fixed() -> (r: EntCollidesMode)
        ensures
            r.bits == COLLIDES_FIXED,
    {
        EntCollidesMode { bits: COLLIDES_FIXED }
    }
}

impl EntGroup {
    /// The set with exactly these bits.
    pub fn from_bits(bits: u8) -> (r: EntGroup)
        ensures
            r.bits == bits,
    {
        EntGroup { bits }
    }

    /// No group at all.
    pub fn is_empty(self) -> (r: bool)
        ensures
            r == (self.bits == 0),
    {
        self.bits == 0
    }

    /// The two sets share a group.
    pub fn intersects(self, other: EntGroup) -> (r: bool)
        ensures
            r == (self.bits & other.bits != 0),
    {
        self.bits & other.bits != 0
    }
}

/// The part of an entity's physics that the broad phase reads.
#[derive(Clone, Copy, Debug, PartialEq, Eq, Structural)]
pub struct PairFlags {
    pub physics: EntPhysics,
    pub group: EntGroup,
    pub check_against: EntGroup,
}

/// An entity starts a scan of the broad phase when it checks against some
/// group, belongs to some group, or is at least passive.
pub open spec fn sweep_candidate_spec(f: PairFlags) -> bool {
    f.check_against.bits != 0 || f.group.bits != 0 || f.physics.bits >= (PHYSICS_MOVE
        | COLLIDES_WORLD | COLLIDES_PASSIVE)
}

/// `a` is told that it touches `b` when it checks against a group of `b`.
pub open spec fn touches_spec(a: PairFlags, b: PairFlags) -> bool {
    a.check_against.bits & b.group.bits != 0
}

/// Two overlapping entities are pushed apart when both are at least lite,
/// their levels together reach active plus lite, and they have mass.
pub open spec fn resolves_spec(a: PairFlags, b: PairFlags, mass_positive: bool) -> bool {
    &&& a.physics.bits >= COLLIDES_LITE
    &&& b.physics.bits >= COLLIDES_LITE
    &&& a.physics.bits + b.physics.bits >= (COLLIDES_ACTIVE | COLLIDES_LITE)
    &&& mass_positive
}

pub fn is_sweep_candidate(f: PairFlags) -> (r: bool)
    ensures
        r == sweep_candidate_spec(f),
{
    !f.check_against.is_empty() || !f.group.is_empty() || f.physics.is_at_least(
        EntPhysics::passive(),
    )
}

pub fn touches(a: PairFlags, b: PairFlags) -> (r: bool)
    ensures
        r == touches_spec(a, b),
{
    a.check_against.intersects(b.group)
}

/// `mass_positive` says whether the two masses add up to more than zero.
pub fn resolves(a: PairFlags, b: PairFlags, mass_positive: bool) -> (r: bool)
    ensures
        r == resolves_spec(a, b, mass_positive),
{
    let sum: u8 = a.physics.bits.saturating_add(b.physics.bits);
    a.physics.bits >= COLLIDES_LITE && b.physics.bits >= COLLIDES_LITE && sum >= (COLLIDES_ACTIVE
        | COLLIDES_LITE) && mass_positive
}

/// Which of two colliding entities takes the correction.
#[derive(Clone, Copy, Debug, PartialEq, Eq, Structural)]
pub enum MoveShare {
    /// The first entity takes all of it.
    First,
    /// The second entity takes all of it.
    Second,
    /// Each takes a share in proportion to the other's mass.
    ByMass,
}

pub open spec fn move_share_spec(a: EntPhysics, b: EntPhysics) -> MoveShare {
    if a.bits & COLLIDES_LITE != 0 || b.bits & COLLIDES_FIXED != 0 {
        MoveShare::First
    } else if a.bits & COLLIDES_FIXED != 0 || b.bits & COLLIDES_LITE != 0 {
        MoveShare::Second
    } else {
        MoveShare::ByMass
    }
}

/// A lite entity, or the partner of a fixed one, gives way entirely;
/// otherwise the correction is shared by mass.
pub fn move_share(a: EntPhysics, b: EntPhysics) -> (r: MoveShare)
    ensures
        r == move_share_spec(a, b),
{
    if a.is_collide_mode(EntCollidesMode::lite()) || b.is_collide_mode(EntCollidesMode::fixed()) {
        MoveShare::First
    } else if a.is_collide_mode(EntCollidesMode::fixed()) || b.is_collide_mode(
        EntCollidesMode::lite(),
    ) {
        MoveShare::Second
    } else {
        MoveShare::ByMass
    }
}

/// The level has the lite bit.
pub open spec fn is_lite(p: EntPhysics) -> bool {
    p.bits & COLLIDES_LITE != 0
}

/// The level has the fixed bit.
pub open spec fn is_fixed(p: EntPhysics) -> bool {
    p.bits & COLLIDES_FIXED != 0
}

/// The share with the roles of the two entities exchanged.
pub open spec fn swap_share(m: MoveShare) -> MoveShare {
    match m {
        MoveShare::First => MoveShare::Second,
        MoveShare::Second => MoveShare::First,
        MoveShare::ByMass => MoveShare::ByMass,
    }
}

/// Asking for the share of `(b, a)` gives the share of `(a, b)` with the
/// roles exchanged, unless both are lite or both fixed, or one entity is
/// lite and fixed at once.
pub proof fn lemma_move_share_swaps(a: EntPhysics, b: EntPhysics)
    requires
        !(is_lite(a) && is_lite(b)),
        !(is_fixed(a) && is_fixed(b)),
        !(is_lite(a) && is_fixed(a)),
        !(is_lite(b) && is_fixed(b)),
    ensures
        move_share_spec(b, a) == swap_share(move_share_spec(a, b)),
{
}

/// The named levels hold the bits of the levels below them: `world` holds
/// `moving`, and each collidable level holds `world`. Their numeric order is
/// lite, passive, active, fixed.
pub proof fn lemma_levels_nest()
    ensures
        (PHYSICS_MOVE | COLLIDES_WORLD) & PHYSICS_MOVE == PHYSICS_MOVE,
        (PHYSICS_MOVE | COLLIDES_WORLD | COLLIDES_LITE) & (PHYSICS_MOVE | COLLIDES_WORLD) == (
        PHYSICS_MOVE | COLLIDES_WORLD),
        (PHYSICS_MOVE | COLLIDES_WORLD | COLLIDES_PASSIVE) & (PHYSICS_MOVE | COLLIDES_WORLD) == (
        PHYSICS_MOVE | COLLIDES_WORLD),
        (PHYSICS_MOVE | COLLIDES_WORLD | COLLIDES_ACTIVE) & (PHYSICS_MOVE | COLLIDES_WORLD) == (
        PHYSICS_MOVE | COLLIDES_WORLD),
        (PHYSICS_MOVE | COLLIDES_WORLD | COLLIDES_FIXED) & (PHYSICS_MOVE | COLLIDES_WORLD) == (
        PHYSICS_MOVE | COLLIDES_WORLD),
        (PHYSICS_MOVE | COLLIDES_WORLD | COLLIDES_LITE) < (PHYSICS_MOVE | COLLIDES_WORLD
            | COLLIDES_PASSIVE),
        (PHYSICS_MOVE | COLLIDES_WORLD | COLLIDES_PASSIVE) < (PHYSICS_MOVE | COLLIDES_WORLD
            | COLLIDES_ACTIVE),
        (PHYSICS_MOVE | COLLIDES_WORLD | COLLIDES_ACTIVE) < (PHYSICS_MOVE | COLLIDES_WORLD
            | COLLIDES_FIXED),
{
    assert((1u8 | 2u8) & 1u8 == 1u8) by (bit_vector);
    assert((1u8 | 2u8 | 16u8) & (1u8 | 2u8) == (1u8 | 2u8)) by (bit_vector);
    assert((1u8 | 2u8 | 32u8) & (1u8 | 2u8) == (1u8 | 2u8)) by (bit_vector);
    assert((1u8 | 2u8 | 64u8) & (1u8 | 2u8) == (1u8 | 2u8)) by (bit_vector);
    assert((1u8 | 2u8 | 128u8) & (1u8 | 2u8) == (1u8 | 2u8)) by (bit_vector);
    assert((1u8 | 2u8 | 16u8) == 19u8) by (bit_vector);
    assert((1u8 | 2u8 | 32u8) == 35u8) by (bit_vector);
    assert((1u8 | 2u8 | 64u8) == 67u8) by (bit_vector);
    assert((1u8 | 2u8 | 128u8) == 131u8) by (bit_vector);
}

} // verus!
