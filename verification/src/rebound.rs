//! How the trajectory is relaunched when a wall answers.

use vstd::prelude::*;
use crate::contact::Contacts;
use crate::wall::{Axis, Wall};

verus! {

/// The relaunch of the trajectory from a wall. The new launch velocity is the
/// current one scaled by the restitution of ball and box, with the component
/// named here reversed. The new launch point is the current position with the
/// coordinate along `pinned` moved onto the wall, one ball radius inside it.
#[derive(Clone, Copy, Debug, PartialEq, Eq, Structural)]
pub struct Rebound {
    /// The wall that answers.
    pub wall: Wall,
    /// The horizontal velocity component changes sign.
    pub reverse_x: bool,
    /// The vertical velocity component changes sign.
    pub reverse_y: bool,
    /// The coordinate that is moved onto the wall; the other one is kept.
    pub pinned: Axis,
    /// The ball radius is added to the wall's coordinate, not subtracted.
    pub inset_added: bool,
}

/// What a frame does to the trajectory.
#[derive(Clone, Copy, Debug, PartialEq, Eq, Structural)]
pub enum Step {
    /// The ball flies on: launch state and clock are kept.
    Coast,
    /// The ball is relaunched as described, and the clock restarts at zero.
    Bounce(Rebound),
}

/// The relaunch from `wall`: the velocity component along the wall's normal
/// is reversed and the other kept, the coordinate along the normal is pinned,
/// and the radius is added at the left and bottom walls and subtracted at the
/// right and top ones.
pub open spec fn spec_rebound_from(wall: Wall) -> Rebound {
    Rebound {
        wall,
        reverse_x: wall.spec_normal_axis() == Axis::X,
        reverse_y: wall.spec_normal_axis() == Axis::Y,
        pinned: wall.spec_normal_axis(),
        inset_added: wall.spec_at_low_end(),
    }
}

/// What a frame with these contacts does: it coasts when no wall has been
/// reached, and else bounces off the deciding wall.
pub open spec fn spec_step(contacts: Contacts) -> Step {
    match contacts.spec_deciding() {
        None => Step::Coast,
        Some(wall) => Step::Bounce(spec_rebound_from(wall)),
    }
}

impl Step {
    /// Whether the frame restarts the clock of the trajectory.
    pub open spec fn spec_restarts_clock(self) -> bool {
        self is Bounce
    }

    /// Whether the frame restarts the clock of the trajectory: every bounce
    /// does, coasting does not.
    #[verifier::when_used_as_spec(spec_restarts_clock)]
    pub fn restarts_clock(self) -> (restarts: bool)
        ensures
            restarts == self.spec_restarts_clock(),
    {
        match self {
            Step::Coast => false,
            Step::Bounce(_) => true,
        }
    }
}

/// The relaunch of the trajectory from `wall`.
#[verifier::when_used_as_spec(spec_rebound_from)]
pub fn rebound_from(wall: Wall) -> (rebound: Rebound)
    ensures
        rebound == spec_rebound_from(wall),
{
    let axis = wall.normal_axis();
    Rebound {
        wall,
        reverse_x: axis == Axis::X,
        reverse_y: axis == Axis::Y,
        pinned: axis,
        inset_added: wall.at_low_end(),
    }
}

/// Decides one frame from the walls that the ball has reached.
#[verifier::when_used_as_spec(spec_step)]
pub fn step(contacts: Contacts) -> (taken: Step)
    ensures
        taken == spec_step(contacts),
        taken is Coast <==> !contacts.spec_any(),
{
    match contacts.deciding() {
        None => Step::Coast,
        Some(wall) => Step::Bounce(rebound_from(wall)),
    }
}

/// A rebound reverses exactly one velocity component, the one along the axis
/// whose coordinate it pins.
pub proof fn lemma_rebound_reverses_the_normal_component(wall: Wall)
    ensures
        spec_rebound_from(wall).reverse_x != spec_rebound_from(wall).reverse_y,
        spec_rebound_from(wall).reverse_x <==> spec_rebound_from(wall).pinned == Axis::X,
        spec_rebound_from(wall).reverse_y <==> spec_rebound_from(wall).pinned == Axis::Y,
{
}

/// In a corner the wall examined later answers alone: when a side wall and
/// the floor or ceiling have both been reached, the vertical component is
/// reversed and the horizontal one is kept.
pub proof fn lemma_corner_reverses_vertical_only(contacts: Contacts)
    requires
        contacts.left || contacts.right,
        contacts.bottom || contacts.top,
    ensures
        spec_step(contacts) matches Step::Bounce(rebound) && rebound.reverse_y
            && !rebound.reverse_x && rebound.pinned == Axis::Y,
{
}

} // verus!
