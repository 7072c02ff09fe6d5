//! The player: where it stands, which way it faces, and how it is kept
//! inside the window.

use crate::cursor::Cursor;
use crate::geometry::{Offset, Point, Window, UNIT};
use crate::input::{movement_keys, poll, pressed_keys, Direction, Keys};
use bevy::input::keyboard::KeyCode;
use bevy::input::ButtonInput;
use vstd::prelude::*;

verus! {

/// The side of the player's square sprite, in steps: 64 world units.
pub const PLAYER_SIZE: i64 = 64 * UNIT;

/// The player's speed in world units per second, which is also its speed in
/// steps per clock tick.
pub const PLAYER_SPEED: u64 = 400;

/// The one player of the scene.
///
/// `heading` is the offset from the player to the point it faces. The angle
/// of rotation is the arctangent of `heading.dy` over `heading.dx`; the zero
/// offset stands for the angle zero.
#[derive(Clone, Copy, Debug, PartialEq, Eq, Structural)]
pub struct Player {
    pub position: Point,
    pub heading: Offset,
}

/// Half the side of the player's sprite, in steps.
pub open spec fn half_size() -> int {
    PLAYER_SIZE / 2
}

/// `v` restricted to the closed interval from `low` to `high`: the nearer
/// end where `v` lies outside.
pub open spec fn clamped(v: int, low: int, high: int) -> int {
    if v < low {
        low
    } else if v > high {
        high
    } else {
        v
    }
}

impl Window {
    /// The window is at least as wide and as high as the player's sprite.
    pub open spec fn holds_player(self) -> bool {
        self.width_steps() >= PLAYER_SIZE && self.height_steps() >= PLAYER_SIZE
    }

    /// A sprite centred on `p` lies wholly inside the window.
    pub open spec fn encloses(self, p: Point) -> bool {
        &&& half_size() <= p.x <= self.width_steps() - half_size()
        &&& half_size() <= p.y <= self.height_steps() - half_size()
    }

    /// The point of the window's inner rectangle that is nearest to `p`,
    /// axis by axis.
    pub open spec fn confined(self, p: Point) -> Point {
        Point {
            x: clamped(p.x as int, half_size(), self.width_steps() - half_size()) as i64,
            y: clamped(p.y as int, half_size(), self.height_steps() - half_size()) as i64,
        }
    }

    /// Tells whether the window is large enough for the player's sprite.
    pub fn fits_player(&self) -> (fits: bool)
        ensures
            fits == self.holds_player(),
    {
        self.width as i64 * UNIT >= PLAYER_SIZE && self.height as i64 * UNIT >= PLAYER_SIZE
    }
}

/// The distance, in steps, that the player covers in `elapsed` clock ticks.
pub open spec fn travel(elapsed: u32) -> int {
    PLAYER_SPEED * elapsed
}

/// `r` is what each axis gets of a distance `d` covered along a diagonal:
/// `d` divided by the square root of two, rounded down to a whole step. So
/// `r` is the largest whole number whose diagonal, of squared length
/// `2 * r * r`, is no longer than `d`.
pub open spec fn is_diagonal_share(d: int, r: int) -> bool {
    0 <= r && 2 * r * r <= d * d < 2 * (r + 1) * (r + 1)
}

/// What each axis gets of a distance `d` covered along a diagonal.
pub open spec fn diagonal_share(d: int) -> int {
    choose|r: int| is_diagonal_share(d, r)
}

/// A component of a direction, which is -1, 0 or 1, times the length
/// `along`.
pub open spec fn directed(component: int, along: int) -> int {
    if component > 0 {
        along
    } else if component < 0 {
        -along
    } else {
        0
    }
}

/// The direction `direction`, stretched to the length `d`: a component that
/// is set becomes `d` along an axis, and the diagonal share of `d` along a
/// diagonal; the zero direction stays zero.
pub open spec fn stretched(direction: Direction, d: int) -> Offset {
    let along = if direction.diagonal() {
        diagonal_share(d)
    } else {
        d
    };
    Offset {
        dx: directed(direction.x as int, along) as i128,
        dy: directed(direction.y as int, along) as i128,
    }
}

/// How far the keys `keys`, held for `elapsed` clock ticks, carry the
/// player.
pub open spec fn displacement(keys: Keys, elapsed: u32) -> Offset {
    stretched(keys.sum(), travel(elapsed))
}

/// No distance has two diagonal shares.
pub proof fn lemma_diagonal_share_unique(d: int, r1: int, r2: int)
    requires
        is_diagonal_share(d, r1),
        is_diagonal_share(d, r2),
    ensures
        r1 == r2,
{
    if r1 < r2 {
        assert(2 * (r1 + 1) * (r1 + 1) <= 2 * r2 * r2) by (nonlinear_arith)
            requires
                0 <= r1,
                r1 + 1 <= r2,
        ;
    } else if r2 < r1 {
        assert(2 * (r2 + 1) * (r2 + 1) <= 2 * r1 * r1) by (nonlinear_arith)
            requires
                0 <= r2,
                r2 + 1 <= r1,
        ;
    }
}

/// Every distance has a diagonal share at or above `r`, where the diagonal
/// of `r` is no longer than the distance.
proof fn lemma_diagonal_share_from(d: int, r: int)
    requires
        0 <= r <= d,
        2 * r * r <= d * d,
    ensures
        exists|s: int| is_diagonal_share(d, s),
    decreases d - r,
{
    if d * d < 2 * (r + 1) * (r + 1) {
        assert(is_diagonal_share(d, r));
    } else {
        assert(r + 1 <= d) by (nonlinear_arith)
            requires
                0 <= r <= d,
                2 * (r + 1) * (r + 1) <= d * d,
        ;
        lemma_diagonal_share_from(d, r + 1);
    }
}

/// Every distance has a diagonal share, and `diagonal_share` names it.
pub proof fn lemma_diagonal_share_exists(d: int)
    requires
        0 <= d,
    ensures
        is_diagonal_share(d, diagonal_share(d)),
        0 <= diagonal_share(d) <= d,
{
    assert(0 <= d * d) by (nonlinear_arith);
    lemma_diagonal_share_from(d, 0);
    let r = diagonal_share(d);
    if r > d {
        assert(2 * r * r > d * d) by (nonlinear_arith)
            requires
                0 <= d < r,
        ;
    }
}

/// The player moves at one speed or not at all. Keys that cancel, or no
/// keys, give no displacement. Keys along one axis give one whose length is
/// the distance travelled. Keys along a diagonal give one with equal shares
/// on both axes whose length is that distance to within the last step: no
/// longer, and with one step more on each axis it would be longer.
pub proof fn lemma_displacement_length(keys: Keys, elapsed: u32)
    ensures
        !keys.pulls() ==> displacement(keys, elapsed) == (Offset { dx: 0, dy: 0 }),
        keys.pulls() && !keys.sum().diagonal() ==> displacement(keys, elapsed).length_squared()
            == travel(elapsed) * travel(elapsed),
        keys.sum().diagonal() ==> {
            let r = diagonal_share(travel(elapsed));
            &&& displacement(keys, elapsed).length_squared() == 2 * r * r
            &&& 2 * r * r <= travel(elapsed) * travel(elapsed) < 2 * (r + 1) * (r + 1)
        },
{
    let direction = keys.sum();
    let d = travel(elapsed);
    let x = direction.x as int;
    let y = direction.y as int;
    lemma_diagonal_share_exists(d);
    let along = if direction.diagonal() {
        diagonal_share(d)
    } else {
        d
    };
    let step = displacement(keys, elapsed);
    assert(step.dx * step.dx == if x == 0 { 0int } else { along * along }) by (nonlinear_arith)
        requires
            x == 0 ==> step.dx == 0,
            x != 0 ==> step.dx == along || step.dx == -along,
    ;
    assert(step.dy * step.dy == if y == 0 { 0int } else { along * along }) by (nonlinear_arith)
        requires
            y == 0 ==> step.dy == 0,
            y != 0 ==> step.dy == along || step.dy == -along,
    ;
    assert(2 * along * along == along * along + along * along) by (nonlinear_arith);
}

/// Finds the diagonal share of `d` by bisection.
fn share_diagonal(d: u64) -> (r: u64)
    requires
        d <= PLAYER_SPEED * u32::MAX,
    ensures
        r == diagonal_share(d as int),
        is_diagonal_share(d as int, r as int),
        r <= d,
{
    assert(d * d <= 0x200_0000_0000 * 0x200_0000_0000) by (nonlinear_arith)
        requires
            0 <= d <= 0x200_0000_0000,
    ;
    let square: u128 = d as u128 * d as u128;
    let mut low: u64 = 0;
    let mut high: u64 = d + 1;
    assert(d * d < 2 * (d + 1) * (d + 1)) by (nonlinear_arith);
    while high - low > 1
        invariant
            low < high <= d + 1,
            d <= PLAYER_SPEED * u32::MAX,
            square == d * d,
            2 * low * low <= square,
            square < 2 * high * high,
        decreases high - low,
    {
        let mid: u64 = low + (high - low) / 2;
        assert(mid * mid <= 0x200_0000_0000 * 0x200_0000_0000) by (nonlinear_arith)
            requires
                0 <= mid <= 0x200_0000_0000,
        ;
        let doubled: u128 = 2 * (mid as u128 * mid as u128);
        assert(doubled == 2 * mid * mid) by (nonlinear_arith)
            requires
                doubled == 2 * (mid * mid),
        ;
        if doubled <= square {
            low = mid;
        } else {
            high = mid;
        }
    }
    proof {
        lemma_diagonal_share_unique(d as int, low as int, diagonal_share(d as int));
    }
    low
}

/// Moves the player the way the keys `keys` ask, as far as its speed carries
/// it in `elapsed` clock ticks. Along an axis that is `travel(elapsed)`
/// steps; along a diagonal each coordinate moves by the diagonal share of
/// that distance, so that holding two keys is no faster than holding one.
/// Keys that cancel, or no keys, leave the player where it is. The heading
/// stays.
pub fn walk(keys: Keys, player: &mut Player, elapsed: u32)
    ensures
        final(player).position == old(player).position.moved(displacement(keys, elapsed)),
        final(player).heading == old(player).heading,
        !keys.pulls() ==> *final(player) == *old(player),
{
    let direction = keys.direction();
    let distance: u64 = PLAYER_SPEED * elapsed as u64;
    let along: u64 = if direction.is_diagonal() {
        share_diagonal(distance)
    } else {
        distance
    };
    assert(direction.x * along == directed(direction.x as int, along as int)
        && direction.y * along == directed(direction.y as int, along as int))
        by (nonlinear_arith)
        requires
            -1 <= direction.x <= 1,
            -1 <= direction.y <= 1,
    ;
    let step = Offset {
        dx: direction.x as i128 * along as i128,
        dy: direction.y as i128 * along as i128,
    };
    player.position = player.position.translate(&step);
}

/// Polls the four movement keys in `keyboard_input` and moves the player
/// the way they ask, as `walk` does.
pub fn player_movement(
    keyboard_input: &ButtonInput<KeyCode>,
    player: &mut Player,
    elapsed: u32,
)
    ensures
        final(player).position == old(player).position.moved(
            displacement(movement_keys(pressed_keys(*keyboard_input)), elapsed),
        ),
        final(player).heading == old(player).heading,
{
    let keys = poll(keyboard_input);
    walk(keys, player, elapsed);
}

/// Puts the player in the middle of the window, with the zero heading.
pub fn spawn_player(window: Window) -> (player: Player)
    ensures
        player.position == window.middle(),
        player.heading == (Offset { dx: 0, dy: 0 }),
{
    Player { position: window.center(), heading: Offset { dx: 0, dy: 0 } }
}

/// Turns the player towards the cursor: its heading becomes the offset from
/// where it stands to the cursor's last known place. Where the two are the
/// same point that is the zero offset, which stands for the angle zero. The
/// position stays.
pub fn player_rotation(player: &mut Player, cursor: &Cursor)
    ensures
        final(player).heading == old(player).position.offset_to(cursor.pos),
        final(player).position == old(player).position,
{
    player.heading = player.position.delta_to(&cursor.pos);
}

/// Restricts one coordinate to the interval from `low` to `high`.
fn clamp_axis(v: i64, low: i64, high: i64) -> (r: i64)
    ensures
        r == clamped(v as int, low as int, high as int),
{
    if v < low {
        low
    } else if v > high {
        high
    } else {
        v
    }
}

/// Keeps the player's sprite inside the window: each coordinate of its
/// position is moved to the nearer edge of the inner rectangle where it lies
/// outside, and left alone where it lies inside. The heading stays.
pub fn confine_player_movement(player: &mut Player, window: Window)
    requires
        window.holds_player(),
    ensures
        final(player).position == window.confined(old(player).position),
        final(player).heading == old(player).heading,
        window.encloses(final(player).position),
{
    let half: i64 = PLAYER_SIZE / 2;
    let x_min: i64 = half;
    let y_min: i64 = half;
    let x_max: i64 = window.width as i64 * UNIT - half;
    let y_max: i64 = window.height as i64 * UNIT - half;
    player.position = Point {
        x: clamp_axis(player.position.x, x_min, x_max),
        y: clamp_axis(player.position.y, y_min, y_max),
    };
}

/// Confining is idempotent: a position that has been confined to a window
/// is left as it is by confining it to the same window again.
pub proof fn lemma_confine_idempotent(window: Window, p: Point)
    requires
        window.holds_player(),
    ensures
        window.confined(window.confined(p)) == window.confined(p),
{
}

/// A confined position lies inside the window, and a position inside the
/// window is left as it is by confining.
pub proof fn lemma_confined_inside(window: Window, p: Point)
    requires
        window.holds_player(),
    ensures
        window.encloses(window.confined(p)),
        window.encloses(p) <==> window.confined(p) == p,
{
}

} // verus!
