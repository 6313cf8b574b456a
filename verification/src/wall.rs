//! The four walls of the box and the geometry each one stands for.

use vstd::prelude::*;

verus! {

/// One of the two coordinate axes of the plane.
#[derive(Clone, Copy, Debug, PartialEq, Eq, Structural)]
pub enum Axis {
    /// The horizontal axis.
    X,
    /// The vertical axis.
    Y,
}

/// A wall of the box. The variants stand in the order in which a frame
/// examines them.
#[derive(Clone, Copy, Debug, PartialEq, Eq, Structural)]
pub enum Wall {
    Left,
    Right,
    Bottom,
    Top,
}

impl Wall {
    /// Position of the wall in the order of examination, from 0.
    pub open spec fn rank(self) -> nat {
        match self {
            Wall::Left => 0,
            Wall::Right => 1,
            Wall::Bottom => 2,
            Wall::Top => 3,
        }
    }

    /// The axis along which the wall's normal points.
    pub open spec fn spec_normal_axis(self) -> Axis {
        match self {
            Wall::Left | Wall::Right => Axis::X,
            Wall::Bottom | Wall::Top => Axis::Y,
        }
    }

    /// Whether the wall bounds the box at the low end of its normal axis, so
    /// that the interior lies in the positive direction from it.
    pub open spec fn spec_at_low_end(self) -> bool {
        match self {
            Wall::Left | Wall::Bottom => true,
            Wall::Right | Wall::Top => false,
        }
    }

    /// The axis along which the wall's normal points: the horizontal one for
    /// the left and right walls, the vertical one for the bottom and top.
    #[verifier::when_used_as_spec(spec_normal_axis)]
    pub fn normal_axis(self) -> (axis: Axis)
        ensures
            axis == self.spec_normal_axis(),
    {
        match self {
            Wall::Left | Wall::Right => Axis::X,
            Wall::Bottom | Wall::Top => Axis::Y,
        }
    }

    /// Whether the wall is the left or the bottom one, from which the
    /// interior of the box lies in the positive direction.
    #[verifier::when_used_as_spec(spec_at_low_end)]
    pub fn at_low_end(self) -> (low: bool)
        ensures
            low == self.spec_at_low_end(),
    {
        match self {
            Wall::Left | Wall::Bottom => true,
            Wall::Right | Wall::Top => false,
        }
    }
}

/// A wall is known by its rank: two walls of one rank are the same wall, and
/// every rank is below four.
pub proof fn lemma_rank_identifies(a: Wall, b: Wall)
    ensures
        a.rank() < 4,
        a.rank() == b.rank() <==> a == b,
{
}

/// A wall is known by its normal axis and the end of that axis at which it
/// stands.
pub proof fn lemma_axis_and_end_identify(a: Wall, b: Wall)
    ensures
        (a.normal_axis() == b.normal_axis() && a.at_low_end() == b.at_low_end()) <==> a == b,
{
}

} // verus!
