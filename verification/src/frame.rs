//! One frame of the scene: the four steps of player control, in their order.

use vstd::prelude::*;
use crate::cursor::{system, Cursor};
use crate::geometry::{Point, Window};
use crate::input::Keys;
use crate::player::{
    confine_player_movement, displacement, player_rotation, walk, Player,
};

verus! {

/// What lasts from one frame to the next.
#[derive(Clone, Copy, Debug, PartialEq, Eq, Structural)]
pub struct Scene {
    pub cursor: Cursor,
    pub player: Player,
}

/// What one frame is given from outside.
#[derive(Clone, Copy, Debug, PartialEq, Eq, Structural)]
pub struct FrameInput {
    /// The window's size.
    pub window: Window,
    /// The cursor's place in the world, where it is over the window and
    /// could be projected.
    pub cursor: Option<Point>,
    /// The movement keys that are held.
    pub keys: Keys,
    /// The clock ticks since the frame before.
    pub elapsed: u32,
}

impl Scene {
    /// The scene after one frame with the input `input`. The cursor takes in
    /// this frame's sample. The player moves; from where it has moved to it
    /// turns towards the cursor as this frame knows it; and then it is
    /// confined to the window.
    pub open spec fn after(self, input: FrameInput) -> Scene {
        let cursor = self.cursor.followed(input.cursor);
        let reached = self.player.position.moved(displacement(input.keys, input.elapsed));
        Scene {
            cursor,
            player: Player {
                position: input.window.confined(reached),
                heading: reached.offset_to(cursor.pos),
            },
        }
    }
}

/// Runs one frame: cursor, movement, rotation, confinement, in that order.
/// The rotation uses the cursor's place of this same frame and the
/// player's position after the movement, before it is confined. When the
/// frame is over the player's sprite lies inside the window.
pub fn run_frame(scene: &mut Scene, input: &FrameInput)
    requires
        input.window.holds_player(),
    ensures
        *final(scene) == old(scene).after(*input),
        input.window.encloses(final(scene).player.position),
{
    system(&mut scene.cursor, input.cursor);
    walk(input.keys, &mut scene.player, input.elapsed);
    player_rotation(&mut scene.player, &scene.cursor);
    confine_player_movement(&mut scene.player, input.window);
}

} // verus!
