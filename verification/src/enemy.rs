//! Enemies: sprites that are scattered over the window at random and then
//! stay where they are. They have nothing to do with the player.

use vstd::prelude::*;
use crate::geometry::{Point, Window, UNIT};

verus! {

/// How many enemies are scattered.
pub const NUMBER_OF_ENEMIES: usize = 4;

/// One enemy.
#[derive(Clone, Copy, Debug, PartialEq, Eq, Structural)]
pub struct Enemy {
    pub position: Point,
}

/// The coordinate that the random word `word` picks in a window that is
/// `extent` world units long: the word, read as a fraction of two to the
/// power of 32, times the window's length in steps, rounded down.
pub open spec fn scattered(word: u32, extent: u32) -> int {
    (word * (extent * UNIT)) / 0x1_0000_0000
}

/// `c` is a coordinate inside a window that is `extent` world units long: at
/// least zero and less than the length in steps, or zero where the window
/// has no length.
pub open spec fn inside(c: int, extent: u32) -> bool {
    if extent == 0 {
        c == 0
    } else {
        0 <= c < extent * UNIT
    }
}

/// The enemy that the random words `wx` and `wy` pick in `window`.
pub open spec fn placed(wx: u32, wy: u32, window: Window) -> Enemy {
    Enemy {
        position: Point {
            x: scattered(wx, window.width) as i64,
            y: scattered(wy, window.height) as i64,
        },
    }
}

/// `enemy` stands where some pair of random words would place it in
/// `window`.
pub open spec fn is_placement(enemy: Enemy, window: Window) -> bool {
    exists|wx: u32, wy: u32| enemy == #[trigger] placed(wx, wy, window)
}

/// Whatever the random word, the coordinate it picks lies inside the window.
pub proof fn lemma_scattered_inside(word: u32, extent: u32)
    ensures
        inside(scattered(word, extent), extent),
{
    let length = extent * UNIT;
    assert(0 <= word * length && (length > 0 ==> word * length < 0x1_0000_0000 * length))
        by (nonlinear_arith)
        requires
            0 <= word < 0x1_0000_0000,
            0 <= length,
    ;
    assert(extent == 0 ==> word * length == 0) by (nonlinear_arith)
        requires
            length == extent * UNIT,
    ;
}

/// Computes the coordinate that the random word `word` picks in a window
/// that is `extent` world units long.
pub fn scatter(word: u32, extent: u32) -> (c: i64)
    ensures
        c == scattered(word, extent),
        inside(c as int, extent),
{
    proof {
        lemma_scattered_inside(word, extent);
    }
    let length: u128 = extent as u128 * UNIT as u128;
    assert(word * length <= 0x1_0000_0000 * length) by (nonlinear_arith)
        requires
            0 <= word < 0x1_0000_0000,
            0 <= length,
    ;
    let product: u128 = word as u128 * length;
    (product / 0x1_0000_0000) as i64
}

/// Places one enemy where the random words `wx` and `wy` say.
pub fn place_enemy(wx: u32, wy: u32, window: Window) -> (enemy: Enemy)
    ensures
        enemy == placed(wx, wy, window),
        inside(enemy.position.x as int, window.width),
        inside(enemy.position.y as int, window.height),
{
    Enemy { position: Point { x: scatter(wx, window.width), y: scatter(wy, window.height) } }
}

/// Draws one random word from `rand::random`. Nothing is claimed of the
/// word that comes back. The generator behind it is seeded from the
/// operating system when a thread first draws from it, and panics there if
/// the system has no randomness to give.
#[verifier::external_body]
fn random_word() -> u32 {
    rand::random::<u32>()
}

/// Scatters `NUMBER_OF_ENEMIES` enemies over the window. Where each one
/// lands is drawn at random; whatever is drawn, each is the placement of two
/// random words and lies inside the window.
pub fn spawn_enemies(window: Window) -> (enemies: Vec<Enemy>)
    ensures
        enemies@.len() == NUMBER_OF_ENEMIES,
        forall|i: int| 0 <= i < enemies@.len() ==> is_placement(#[trigger] enemies@[i], window),
        forall|i: int|
            0 <= i < enemies@.len() ==> inside(#[trigger] enemies@[i].position.x as int, window.width)
                && inside(enemies@[i].position.y as int, window.height),
{
    let mut enemies: Vec<Enemy> = Vec::new();
    while enemies.len() < NUMBER_OF_ENEMIES
        invariant
            enemies@.len() <= NUMBER_OF_ENEMIES,
            forall|i: int|
                0 <= i < enemies@.len() ==> is_placement(#[trigger] enemies@[i], window),
            forall|i: int|
                0 <= i < enemies@.len() ==> inside(
                    #[trigger] enemies@[i].position.x as int,
                    window.width,
                ) && inside(enemies@[i].position.y as int, window.height),
        decreases NUMBER_OF_ENEMIES - enemies@.len(),
    {
        let wx = random_word();
        let wy = random_word();
        let enemy = place_enemy(wx, wy, window);
        assert(is_placement(enemy, window));
        enemies.push(enemy);
    }
    enemies
}

} // verus!
