//! The decisions of the resolver that do not depend on magnitudes: along
//! which axis two overlapping entities are pushed apart, which one goes to
//! which side, and the contact normal that each is told of.
use vstd::prelude::*;

verus! {

/// The sign of one component of an overlap vector.
#[derive(Clone, Copy, Debug, PartialEq, Eq, Structural)]
pub enum Sign {
    Negative,
    Zero,
    Positive,
}

pub open spec fn flip(s: Sign) -> Sign {
    match s {
        Sign::Negative => Sign::Positive,
        Sign::Zero => Sign::Zero,
        Sign::Positive => Sign::Negative,
    }
}

/// A unit normal along one axis, or zero.
#[derive(Clone, Copy, Debug, PartialEq, Eq, Structural)]
pub struct Normal {
    pub x: i8,
    pub y: i8,
}

/// How a pair is pushed apart.
#[derive(Clone, Copy, Debug, PartialEq, Eq, Structural)]
pub enum Separation {
    /// The overlap is zero along the chosen axis: nothing moves.
    Stay,
    /// Apart along x; `a_left` says whether the first entity goes left.
    AlongX { a_left: bool },
    /// Apart along y; `a_top` says whether the first entity goes up.
    AlongY { a_top: bool },
}

/// The separation of a pair and the contact normal of each entity.
#[derive(Clone, Copy, Debug, PartialEq, Eq, Structural)]
pub struct ResolvePlan {
    pub separation: Separation,
    pub normal_a: Normal,
    pub normal_b: Normal,
}

/// The plan for an overlap vector whose y part is larger in magnitude
/// (`y_deeper`) or not, with the given signs: the pair is pushed apart
/// along the axis of the smaller part, the first entity to the side
/// against the sign, and each normal points away from the other entity.
pub open spec fn plan_spec(y_deeper: bool, sign_x: Sign, sign_y: Sign) -> ResolvePlan {
    let zero = Normal { x: 0, y: 0 };
    if y_deeper {
        match sign_x {
            Sign::Positive => ResolvePlan {
                separation: Separation::AlongX { a_left: true },
                normal_a: Normal { x: -1i8, y: 0 },
                normal_b: Normal { x: 1, y: 0 },
            },
            Sign::Negative => ResolvePlan {
                separation: Separation::AlongX { a_left: false },
                normal_a: Normal { x: 1, y: 0 },
                normal_b: Normal { x: -1i8, y: 0 },
            },
            Sign::Zero => ResolvePlan {
                separation: Separation::Stay,
                normal_a: zero,
                normal_b: zero,
            },
        }
    } else {
        match sign_y {
            Sign::Positive => ResolvePlan {
                separation: Separation::AlongY { a_top: true },
                normal_a: Normal { x: 0, y: -1i8 },
                normal_b: Normal { x: 0, y: 1 },
            },
            Sign::Negative => ResolvePlan {
                separation: Separation::AlongY { a_top: false },
                normal_a: Normal { x: 0, y: 1 },
                normal_b: Normal { x: 0, y: -1i8 },
            },
            Sign::Zero => ResolvePlan {
                separation: Separation::Stay,
                normal_a: zero,
                normal_b: zero,
            },
        }
    }
}

/// The same plan seen with the two entities exchanged.
pub open spec fn mirror(p: ResolvePlan) -> ResolvePlan {
    ResolvePlan {
        separation: match p.separation {
            Separation::Stay => Separation::Stay,
            Separation::AlongX { a_left } => Separation::AlongX { a_left: !a_left },
            Separation::AlongY { a_top } => Separation::AlongY { a_top: !a_top },
        },
        normal_a: p.normal_b,
        normal_b: p.normal_a,
    }
}

pub fn plan_resolution(y_deeper: bool, sign_x: Sign, sign_y: Sign) -> (r: ResolvePlan)
    ensures
        r == plan_spec(y_deeper, sign_x, sign_y),
{
    let zero = Normal { x: 0, y: 0 };
    if y_deeper {
        match sign_x {
            Sign::Positive => ResolvePlan {
                separation: Separation::AlongX { a_left: true },
                normal_a: Normal { x: -1i8, y: 0 },
                normal_b: Normal { x: 1, y: 0 },
            },
            Sign::Negative => ResolvePlan {
                separation: Separation::AlongX { a_left: false },
                normal_a: Normal { x: 1, y: 0 },
                normal_b: Normal { x: -1i8, y: 0 },
            },
            Sign::Zero => ResolvePlan {
                separation: Separation::Stay,
                normal_a: zero,
                normal_b: zero,
            },
        }
    } else {
        match sign_y {
            Sign::Positive => ResolvePlan {
                separation: Separation::AlongY { a_top: true },
                normal_a: Normal { x: 0, y: -1i8 },
                normal_b: Normal { x: 0, y: 1 },
            },
            Sign::Negative => ResolvePlan {
                separation: Separation::AlongY { a_top: false },
                normal_a: Normal { x: 0, y: 1 },
                normal_b: Normal { x: 0, y: -1i8 },
            },
            Sign::Zero => ResolvePlan {
                separation: Separation::Stay,
                normal_a: zero,
                normal_b: zero,
            },
        }
    }
}

/// Resolving `(b, a)`, whose overlap vector is that of `(a, b)` negated,
/// mirrors resolving `(a, b)`: the same axis, each entity to the same side
/// as before, and the two normals exchanged.
pub proof fn lemma_plan_mirrors(y_deeper: bool, sign_x: Sign, sign_y: Sign)
    ensures
        plan_spec(y_deeper, flip(sign_x), flip(sign_y)) == mirror(
            plan_spec(y_deeper, sign_x, sign_y),
        ),
{
}

/// The two normals of a plan point in opposite directions.
pub proof fn lemma_plan_normals_opposite(y_deeper: bool, sign_x: Sign, sign_y: Sign)
    ensures
        plan_spec(y_deeper, sign_x, sign_y).normal_a.x == -plan_spec(
            y_deeper,
            sign_x,
            sign_y,
        ).normal_b.x,
        plan_spec(y_deeper, sign_x, sign_y).normal_a.y == -plan_spec(
            y_deeper,
            sign_x,
            sign_y,
        ).normal_b.y,
{
}

} // verus!
