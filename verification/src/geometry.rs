//! Points, offsets and window sizes on the integer grid.
//!
//! A position is counted in steps. One world unit is `UNIT` steps, and the
//! clock that drives movement ticks `UNIT` times a second, so a speed given in
//! units per second is the same number in steps per tick.

use vstd::prelude::*;

verus! {

/// Steps in one world unit, and clock ticks in one second.
pub const UNIT: i64 = 1_000_000;

/// A position in the world, in steps.
#[derive(Clone, Copy, Debug, PartialEq, Eq, Structural)]
pub struct Point {
    pub x: i64,
    pub y: i64,
}

/// The way from one point to another, in steps.
///
/// The difference of two `i64` coordinates needs one bit more than an `i64`
/// has, so the components are wider than a coordinate.
#[derive(Clone, Copy, Debug, PartialEq, Eq, Structural)]
pub struct Offset {
    pub dx: i128,
    pub dy: i128,
}

/// The size of the window, in whole world units.
#[derive(Clone, Copy, Debug, PartialEq, Eq, Structural)]
pub struct Window {
    pub width: u32,
    pub height: u32,
}

/// The nearest value to `v` that an `i64` can hold.
pub open spec fn saturated(v: int) -> int {
    if v < i64::MIN {
        i64::MIN as int
    } else if v > i64::MAX {
        i64::MAX as int
    } else {
        v
    }
}

/// Adds `delta` to `v`, stopping at the ends of the `i64` range.
fn add_saturating(v: i64, delta: i128) -> (r: i64)
    ensures
        r == saturated(v + delta),
{
    if delta > i64::MAX as i128 - v as i128 {
        i64::MAX
    } else if delta < i64::MIN as i128 - v as i128 {
        i64::MIN
    } else {
        (v as i128 + delta) as i64
    }
}

impl Offset {
    /// The square of the offset's length.
    pub open spec fn length_squared(self) -> int {
        self.dx * self.dx + self.dy * self.dy
    }
}

impl Point {
    /// The offset that leads from `self` to `target`.
    pub open spec fn offset_to(self, target: Point) -> Offset {
        Offset { dx: (target.x - self.x) as i128, dy: (target.y - self.y) as i128 }
    }

    /// The point that `offset` leads to from `self`. A coordinate that would
    /// leave the `i64` range stops at its end.
    pub open spec fn moved(self, offset: Offset) -> Point {
        Point {
            x: saturated(self.x + offset.dx) as i64,
            y: saturated(self.y + offset.dy) as i64,
        }
    }

    /// Computes the offset that leads from `self` to `target`.
    pub fn delta_to(&self, target: &Point) -> (offset: Offset)
        ensures
            offset == self.offset_to(*target),
            offset.dx == target.x - self.x,
            offset.dy == target.y - self.y,
    {
        Offset { dx: target.x as i128 - self.x as i128, dy: target.y as i128 - self.y as i128 }
    }

    /// Computes the point that `offset` leads to from `self`.
    pub fn translate(&self, offset: &Offset) -> (p: Point)
        ensures
            p == self.moved(*offset),
    {
        Point { x: add_saturating(self.x, offset.dx), y: add_saturating(self.y, offset.dy) }
    }
}

impl Window {
    /// The window's width in steps.
    pub open spec fn width_steps(self) -> int {
        self.width * UNIT
    }

    /// The window's height in steps.
    pub open spec fn height_steps(self) -> int {
        self.height * UNIT
    }

    /// The point in the middle of the window.
    pub open spec fn middle(self) -> Point {
        Point { x: (self.width_steps() / 2) as i64, y: (self.height_steps() / 2) as i64 }
    }

    /// Computes the point in the middle of the window.
    pub fn center(&self) -> (p: Point)
        ensures
            p == self.middle(),
            2 * p.x == self.width_steps(),
            2 * p.y == self.height_steps(),
    {
        let half_unit: i64 = UNIT / 2;
        Point { x: self.width as i64 * half_unit, y: self.height as i64 * half_unit }
    }
}

/// The offset from one point to another is zero exactly when the two are
/// the same point.
pub proof fn lemma_offset_zero_iff_same(from: Point, to: Point)
    ensures
        from.offset_to(to) == (Offset { dx: 0, dy: 0 }) <==> from == to,
{
}

} // verus!
