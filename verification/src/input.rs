//! The four movement keys and the direction they ask for.

use bevy::input::keyboard::KeyCode;
use bevy::input::ButtonInput;
use std::hash::Hash;
use vstd::prelude::*;

verus! {

/// `bevy::input::ButtonInput`, the engine's record of which buttons are down.
/// What is inside is not looked at here.
#[verifier::external_type_specification]
#[verifier::external_body]
#[verifier::reject_recursive_types(T)]
pub struct ExButtonInput<T: Copy + Eq + Hash + Send + Sync + 'static>(
    bevy::input::ButtonInput<T>,
);

/// `bevy::input::keyboard::KeyCode`, the engine's names for the keys, with
/// its variants as the engine declares them.
#[verifier::external_type_specification]
pub struct ExKeyCode(bevy::input::keyboard::KeyCode);

/// `bevy::input::keyboard::NativeKeyCode`, which `KeyCode` holds for a key it
/// has no name for.
#[verifier::external_type_specification]
pub struct ExNativeKeyCode(bevy::input::keyboard::NativeKeyCode);

/// The keys that `input` holds as pressed.
pub uninterp spec fn pressed_keys(input: ButtonInput<KeyCode>) -> Set<KeyCode>;

/// Asks `ButtonInput::pressed` whether `key` is down. That method looks the
/// key up in the set of pressed keys that `input` holds, and the contract
/// says no more than that.
#[verifier::external_body]
fn pressed(input: &ButtonInput<KeyCode>, key: KeyCode) -> (held: bool)
    ensures
        held == pressed_keys(*input).contains(key),
{
    input.pressed(key)
}

/// Which of the four movement keys are held down.
#[derive(Clone, Copy, Debug, PartialEq, Eq, Structural)]
pub struct Keys {
    pub up: bool,
    pub left: bool,
    pub down: bool,
    pub right: bool,
}

/// The sum of the unit vectors of the keys that are held: each component is
/// -1, 0 or 1.
#[derive(Clone, Copy, Debug, PartialEq, Eq, Structural)]
pub struct Direction {
    pub x: i8,
    pub y: i8,
}

/// What a pair of opposite keys adds up to along its axis: one forward, one
/// backward.
pub open spec fn axis(backward: bool, forward: bool) -> int {
    (if forward { 1int } else { 0int }) - (if backward { 1int } else { 0int })
}

/// The movement keys among the pressed keys `held`: W is up, A is left, S is
/// down and D is right.
pub open spec fn movement_keys(held: Set<KeyCode>) -> Keys {
    Keys {
        up: held.contains(KeyCode::KeyW),
        left: held.contains(KeyCode::KeyA),
        down: held.contains(KeyCode::KeyS),
        right: held.contains(KeyCode::KeyD),
    }
}

/// Reads the four movement keys off the keyboard's state.
pub fn poll(input: &ButtonInput<KeyCode>) -> (keys: Keys)
    ensures
        keys == movement_keys(pressed_keys(*input)),
{
    Keys {
        up: pressed(input, KeyCode::KeyW),
        left: pressed(input, KeyCode::KeyA),
        down: pressed(input, KeyCode::KeyS),
        right: pressed(input, KeyCode::KeyD),
    }
}

impl Keys {
    /// The sum of the unit vectors of the keys that are held: right and up
    /// count forward, left and down backward.
    pub open spec fn sum(self) -> Direction {
        Direction { x: axis(self.left, self.right) as i8, y: axis(self.down, self.up) as i8 }
    }

    /// The keys pull the player somewhere: along at least one axis one key
    /// is held without its opposite.
    pub open spec fn pulls(self) -> bool {
        self.up != self.down || self.left != self.right
    }

    /// Adds up the unit vectors of the keys that are held.
    pub fn direction(&self) -> (d: Direction)
        ensures
            d == self.sum(),
    {
        let mut d = Direction { x: 0, y: 0 };
        if self.up {
            d.y = d.y + 1;
        }
        if self.left {
            d.x = d.x - 1;
        }
        if self.down {
            d.y = d.y - 1;
        }
        if self.right {
            d.x = d.x + 1;
        }
        d
    }
}

impl Direction {
    /// The square of the direction's length.
    pub open spec fn length_squared(self) -> int {
        self.x * self.x + self.y * self.y
    }

    /// Both components are set: the direction runs along a diagonal.
    pub open spec fn diagonal(self) -> bool {
        self.x != 0 && self.y != 0
    }

    /// Tells whether the direction runs along a diagonal.
    pub fn is_diagonal(&self) -> (b: bool)
        ensures
            b == self.diagonal(),
    {
        self.x != 0 && self.y != 0
    }
}

/// Whatever keys are held, the direction they add up to has one of three
/// squared lengths: 0, 1 along an axis, 2 along a diagonal. It is 0 exactly
/// when each key is held together with its opposite or not at all.
pub proof fn lemma_direction_length(keys: Keys)
    ensures
        -1 <= keys.sum().x <= 1,
        -1 <= keys.sum().y <= 1,
        keys.sum().length_squared() == 0 || keys.sum().length_squared() == 1
            || keys.sum().length_squared() == 2,
        keys.sum().length_squared() == 0 <==> !keys.pulls(),
        keys.sum().length_squared() == 2 <==> keys.sum().diagonal(),
{
    let x = keys.sum().x as int;
    let y = keys.sum().y as int;
    assert(x * x == if x == 0 { 0int } else { 1int }) by (nonlinear_arith)
        requires
            -1 <= x <= 1,
    ;
    assert(y * y == if y == 0 { 0int } else { 1int }) by (nonlinear_arith)
        requires
            -1 <= y <= 1,
    ;
}

/// Opposite keys held together cancel: up with down leaves no vertical
/// component, left with right no horizontal one, and where every held key
/// has its opposite held too the direction is the zero vector.
pub proof fn lemma_opposite_keys_cancel(keys: Keys)
    ensures
        keys.up && keys.down ==> keys.sum().y == 0,
        keys.left && keys.right ==> keys.sum().x == 0,
        keys.up == keys.down && keys.left == keys.right ==> keys.sum() == (Direction { x: 0, y: 0 }),
{
}

} // verus!
