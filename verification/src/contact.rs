//! Which walls the ball has reached in a frame, and which of them answers.

use vstd::prelude::*;
use crate::wall::Wall;

verus! {

/// The walls that the ball has reached in one frame, one flag per wall.
#[derive(Clone, Copy, Debug, PartialEq, Eq, Structural)]
pub struct Contacts {
    pub left: bool,
    pub right: bool,
    pub bottom: bool,
    pub top: bool,
}

/// What one examination leaves behind: the wall examined if it was reached,
/// else whatever the examinations before it left.
pub open spec fn examine(before: Option<Wall>, contacts: Contacts, wall: Wall) -> Option<Wall> {
    if contacts.spec_touches(wall) {
        Some(wall)
    } else {
        before
    }
}

impl Contacts {
    /// Whether `wall` has been reached.
    pub open spec fn spec_touches(self, wall: Wall) -> bool {
        match wall {
            Wall::Left => self.left,
            Wall::Right => self.right,
            Wall::Bottom => self.bottom,
            Wall::Top => self.top,
        }
    }

    /// Whether any wall has been reached.
    pub open spec fn spec_any(self) -> bool {
        self.left || self.right || self.bottom || self.top
    }

    /// The wall whose answer stands at the end of the frame. The walls are
    /// examined left, right, bottom, top, and each one reached replaces the
    /// answer of those before it.
    pub open spec fn spec_deciding(self) -> Option<Wall> {
        examine(
            examine(examine(examine(None, self, Wall::Left), self, Wall::Right), self, Wall::Bottom),
            self,
            Wall::Top,
        )
    }

    /// The frame in which no wall has been reached.
    pub fn clear() -> (contacts: Contacts)
        ensures
            contacts == (Contacts { left: false, right: false, bottom: false, top: false }),
    {
        Contacts { left: false, right: false, bottom: false, top: false }
    }

    /// Whether `wall` has been reached.
    #[verifier::when_used_as_spec(spec_touches)]
    pub fn touches(self, wall: Wall) -> (reached: bool)
        ensures
            reached == self.spec_touches(wall),
    {
        match wall {
            Wall::Left => self.left,
            Wall::Right => self.right,
            Wall::Bottom => self.bottom,
            Wall::Top => self.top,
        }
    }

    /// Whether any wall has been reached.
    #[verifier::when_used_as_spec(spec_any)]
    pub fn any(self) -> (reached: bool)
        ensures
            reached == self.spec_any(),
    {
        self.left || self.right || self.bottom || self.top
    }

    /// The wall that answers for this frame: of the walls reached, the one
    /// examined last; `None` when no wall has been reached.
    #[verifier::when_used_as_spec(spec_deciding)]
    pub fn deciding(self) -> (wall: Option<Wall>)
        ensures
            wall == self.spec_deciding(),
            wall is None <==> !self.spec_any(),
            wall matches Some(w) ==> self.spec_touches(w) && forall|v: Wall|
                self.spec_touches(v) ==> v.rank() <= w.rank(),
    {
        if self.top {
            Some(Wall::Top)
        } else if self.bottom {
            Some(Wall::Bottom)
        } else if self.right {
            Some(Wall::Right)
        } else if self.left {
            Some(Wall::Left)
        } else {
            None
        }
    }
}

/// Of the walls reached, the one examined last decides, and nothing else
/// does: `wall` is the deciding wall exactly when it has been reached and no
/// wall reached comes after it.
pub proof fn lemma_last_reached_decides(contacts: Contacts, wall: Wall)
    ensures
        contacts.spec_deciding() == Some(wall) <==> (contacts.spec_touches(wall) && forall|v: Wall|
            contacts.spec_touches(v) ==> v.rank() <= wall.rank()),
{
    if contacts.spec_deciding() == Some(wall) {
        assert forall|v: Wall| contacts.spec_touches(v) implies v.rank() <= wall.rank() by {}
    }
    if contacts.spec_touches(wall) && (forall|v: Wall|
        contacts.spec_touches(v) ==> v.rank() <= wall.rank()) {
        let last = contacts.spec_deciding();
        assert(last is Some);
        assert(contacts.spec_touches(last->0));
        assert(last->0.rank() <= wall.rank());
    }
}

/// A frame decides on no wall exactly when no wall has been reached.
pub proof fn lemma_nothing_decides_without_contact(contacts: Contacts)
    ensures
        contacts.spec_deciding() is None <==> forall|v: Wall| !contacts.spec_touches(v),
{
    if contacts.spec_deciding() is None {
        assert forall|v: Wall| !contacts.spec_touches(v) by {}
    } else {
        assert(contacts.spec_touches(contacts.spec_deciding()->0));
    }
}

/// A wall reached later in the order takes the decision from any reached
/// before it: reaching `later` as well leaves `later` deciding unless a wall
/// after it has been reached too.
pub proof fn lemma_later_wall_overrides(contacts: Contacts, earlier: Wall, later: Wall)
    requires
        contacts.spec_touches(earlier),
        contacts.spec_touches(later),
        earlier.rank() < later.rank(),
    ensures
        contacts.spec_deciding() != Some(earlier),
        contacts.spec_deciding() matches Some(w) && later.rank() <= w.rank(),
{
}

} // verus!
