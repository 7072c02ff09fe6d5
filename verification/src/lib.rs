//! Player control for a top-down 2D scene: a player that walks where the
//! movement keys point, turns to face the cursor, and is kept inside the
//! window.
//!
//! The scene lives on an integer grid. Positions are counted in steps, a
//! millionth of a world unit each, and time in clock ticks, a millionth of a
//! second each (`geometry::UNIT`). What the engine holds as an angle is held
//! here as the offset whose arctangent it is.
//!
//! Each frame has four parts, which `frame::run_frame` runs in their order:
//! `cursor::system` takes in where the cursor is, `player_movement` moves the
//! player, `player_rotation` turns it towards the cursor, and
//! `confine_player_movement` keeps it inside the window.

pub mod camera;
pub mod cursor;
pub mod enemy;
pub mod frame;
pub mod geometry;
pub mod input;
pub mod player;

pub use camera::spawn_camera;
pub use enemy::{spawn_enemies, Enemy, NUMBER_OF_ENEMIES};
pub use player::{
    confine_player_movement, player_movement, player_rotation, spawn_player, walk, Player,
    PLAYER_SIZE, PLAYER_SPEED,
};
