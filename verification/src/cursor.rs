//! The cursor's last known place in the world.

use vstd::prelude::*;
use crate::geometry::Point;

verus! {

/// Where the cursor was in the world when it was last seen over the window.
/// Before it has been seen at all, that is the origin.
#[derive(Clone, Copy, Debug, PartialEq, Eq, Structural)]
pub struct Cursor {
    pub pos: Point,
}

impl Default for Cursor {
    fn default() -> (cursor: Cursor)
        ensures
            cursor.pos == (Point { x: 0, y: 0 }),
    {
        Cursor { pos: Point { x: 0, y: 0 } }
    }
}

impl Cursor {
    /// The cursor after one frame in which `sample` was taken: a sample
    /// replaces the place that was known, a frame without one leaves it.
    pub open spec fn followed(self, sample: Option<Point>) -> Cursor {
        match sample {
            Some(p) => Cursor { pos: p },
            None => self,
        }
    }
}

/// Takes in one frame's sample of the cursor. `world_position` is the
/// cursor's place in the world, or `None` where the cursor is not over the
/// window or could not be projected into the world this frame. A frame
/// without a sample is nothing unusual: the place known from before stays.
pub fn system(cursor: &mut Cursor, world_position: Option<Point>)
    ensures
        *final(cursor) == old(cursor).followed(world_position),
        world_position is None ==> *final(cursor) == *old(cursor),
        world_position is Some ==> final(cursor).pos == world_position->Some_0,
{
    if let Some(p) = world_position {
        cursor.pos = p;
    }
}

} // verus!
