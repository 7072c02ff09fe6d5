use topdown::cursor::Cursor;
use topdown::frame::{run_frame, FrameInput, Scene};
use topdown::geometry::{Offset, Point, Window, UNIT};
use topdown::input::Keys;
use topdown::{spawn_player, Player};

const NO_KEYS: Keys = Keys { up: false, left: false, down: false, right: false };

fn units(x: i64, y: i64) -> Point {
    Point { x: x * UNIT, y: y * UNIT }
}

#[test]
fn frame_moves_then_turns_then_confines() {
    let window = Window { width: 800, height: 600 };
    let mut scene = Scene { cursor: Cursor::default(), player: spawn_player(window) };
    let input = FrameInput {
        window,
        cursor: Some(units(500, 300)),
        keys: Keys { right: true, ..NO_KEYS },
        elapsed: 100_000,
    };
    run_frame(&mut scene, &input);
    assert_eq!(scene.cursor.pos, units(500, 300));
    assert_eq!(scene.player.position, units(440, 300));
    assert_eq!(scene.player.heading, Offset { dx: 60 * UNIT as i128, dy: 0 });
}

#[test]
fn frame_without_a_sample_turns_to_the_last_known_cursor() {
    let window = Window { width: 800, height: 600 };
    let mut scene = Scene {
        cursor: Cursor { pos: units(100, 100) },
        player: Player { position: units(400, 300), heading: Offset { dx: 0, dy: 0 } },
    };
    let input = FrameInput { window, cursor: None, keys: NO_KEYS, elapsed: 16_667 };
    run_frame(&mut scene, &input);
    assert_eq!(scene.cursor.pos, units(100, 100));
    assert_eq!(scene.player.position, units(400, 300));
    assert_eq!(scene.player.heading, Offset { dx: -300 * UNIT as i128, dy: -200 * UNIT as i128 });
}

#[test]
fn frame_turns_from_where_the_player_moved_to_before_the_wall_stops_it() {
    let window = Window { width: 800, height: 600 };
    let mut scene = Scene {
        cursor: Cursor::default(),
        player: Player { position: units(40, 300), heading: Offset { dx: 0, dy: 0 } },
    };
    let input = FrameInput {
        window,
        cursor: Some(units(0, 300)),
        keys: Keys { left: true, ..NO_KEYS },
        elapsed: 100_000,
    };
    run_frame(&mut scene, &input);
    assert_eq!(scene.player.position, units(32, 300));
    assert_eq!(scene.player.heading, Offset { dx: 0, dy: 0 });
}

#[test]
fn player_driven_into_a_wall_stays_and_comes_back() {
    let window = Window { width: 800, height: 600 };
    let mut scene = Scene { cursor: Cursor::default(), player: spawn_player(window) };
    let up = FrameInput { window, cursor: None, keys: Keys { up: true, ..NO_KEYS }, elapsed: 500_000 };
    run_frame(&mut scene, &up);
    assert_eq!(scene.player.position, units(400, 500));
    run_frame(&mut scene, &up);
    assert_eq!(scene.player.position, units(400, 568));
    run_frame(&mut scene, &up);
    assert_eq!(scene.player.position, units(400, 568));
    let down = FrameInput { keys: Keys { down: true, ..NO_KEYS }, elapsed: 10_000, ..up };
    run_frame(&mut scene, &down);
    assert_eq!(scene.player.position, units(400, 564));
}

#[test]
fn frame_keeps_the_player_inside_a_window_that_shrank() {
    let mut scene = Scene {
        cursor: Cursor::default(),
        player: Player { position: units(700, 500), heading: Offset { dx: 0, dy: 0 } },
    };
    let input = FrameInput {
        window: Window { width: 320, height: 240 },
        cursor: None,
        keys: NO_KEYS,
        elapsed: 0,
    };
    run_frame(&mut scene, &input);
    assert_eq!(scene.player.position, units(288, 208));
    assert_eq!(scene.player.heading, Offset { dx: -700 * UNIT as i128, dy: -500 * UNIT as i128 });
}
