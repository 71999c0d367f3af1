//! Positions, facings and the visibility rule.

use vstd::prelude::*;

verus! {

/// A tile position inside a zone.
#[derive(Clone, Copy, Debug, PartialEq, Eq, Structural)]
pub struct Coords {
    pub x: i32,
    pub y: i32,
}

/// One of the four cardinal facings.
#[derive(Clone, Copy, Debug, PartialEq, Eq, Structural)]
pub enum Direction {
    Down,
    Left,
    Up,
    Right,
}

/// How far, along each axis, an observer sees.
pub const VIEW_RANGE: i32 = 12;

/// The largest offset, along each axis, that a wandering creature is moved
/// from its origin when it is placed.
pub const WANDER_REACH: i32 = 2;

pub open spec fn spec_abs_diff(a: int, b: int) -> int {
    if a >= b {
        a - b
    } else {
        b - a
    }
}

/// Two positions are nearby when they are at most `VIEW_RANGE` apart along
/// both axes.
pub open spec fn spec_is_nearby(a: Coords, b: Coords) -> bool {
    spec_abs_diff(a.x as int, b.x as int) <= VIEW_RANGE && spec_abs_diff(a.y as int, b.y as int)
        <= VIEW_RANGE
}

/// Whether `b` is inside the interest rectangle around `a`.
pub fn is_nearby(a: Coords, b: Coords) -> (r: bool)
    ensures
        r == spec_is_nearby(a, b),
{
    let dx: i64 = if a.x >= b.x {
        a.x as i64 - b.x as i64
    } else {
        b.x as i64 - a.x as i64
    };
    let dy: i64 = if a.y >= b.y {
        a.y as i64 - b.y as i64
    } else {
        b.y as i64 - a.y as i64
    };
    dx <= VIEW_RANGE as i64 && dy <= VIEW_RANGE as i64
}

/// The visibility rule does not depend on which of the two positions is the
/// observer.
pub proof fn lemma_is_nearby_symmetric(a: Coords, b: Coords)
    ensures
        spec_is_nearby(a, b) == spec_is_nearby(b, a),
{
}

/// One axis of a placement: the origin moved by `offset`, then held inside
/// `0 ..= limit` (the lower bound wins where `limit` is negative).
pub open spec fn spec_clamp_axis(origin: int, offset: int, limit: int) -> int {
    let moved = origin + offset;
    let capped = if moved <= limit {
        moved
    } else {
        limit
    };
    if capped >= 0 {
        capped
    } else {
        0
    }
}

pub open spec fn spec_perturb(origin: Coords, dx: int, dy: int, width: int, height: int) -> Coords {
    Coords {
        x: spec_clamp_axis(origin.x as int, dx, width) as i32,
        y: spec_clamp_axis(origin.y as int, dy, height) as i32,
    }
}

/// Whether `c` is one of the positions that a wandering creature with this
/// origin can be given in a zone of this size.
pub open spec fn in_wander_window(c: Coords, origin: Coords, width: int, height: int) -> bool {
    exists|dx: int, dy: int|
        -WANDER_REACH <= dx <= WANDER_REACH && -WANDER_REACH <= dy <= WANDER_REACH && c
            == #[trigger] spec_perturb(origin, dx, dy, width, height)
}

fn clamp_axis(origin: i32, offset: i32, limit: i32) -> (r: i32)
    ensures
        r == spec_clamp_axis(origin as int, offset as int, limit as int),
{
    let moved: i64 = origin as i64 + offset as i64;
    let capped: i64 = if moved <= limit as i64 {
        moved
    } else {
        limit as i64
    };
    if capped >= 0 {
        capped as i32
    } else {
        0
    }
}

/// The candidate position for a creature: its origin moved by the offsets
/// and clamped to the zone.
pub fn perturb(origin: Coords, dx: i32, dy: i32, width: i32, height: i32) -> (r: Coords)
    ensures
        r == spec_perturb(origin, dx as int, dy as int, width as int, height as int),
        -WANDER_REACH <= dx <= WANDER_REACH && -WANDER_REACH <= dy <= WANDER_REACH
            ==> in_wander_window(r, origin, width as int, height as int),
{
    let r = Coords { x: clamp_axis(origin.x, dx, width), y: clamp_axis(origin.y, dy, height) };
    assert(r == spec_perturb(origin, dx as int, dy as int, width as int, height as int));
    r
}

/// The facing that a number stands for, by its value modulo four.
pub open spec fn spec_direction_of(n: int) -> Direction {
    let k = n % 4;
    if k == 0 {
        Direction::Down
    } else if k == 1 {
        Direction::Left
    } else if k == 2 {
        Direction::Up
    } else {
        Direction::Right
    }
}

/// The facing chosen by a random byte.
pub fn direction_from_roll(roll: u8) -> (r: Direction)
    ensures
        r == spec_direction_of(roll as int),
{
    let k: u8 = roll % 4;
    if k == 0 {
        Direction::Down
    } else if k == 1 {
        Direction::Left
    } else if k == 2 {
        Direction::Up
    } else {
        Direction::Right
    }
}

/// The facing held in the two low bits of a behaviour mode.
pub fn direction_from_mode(mode: i32) -> (r: Direction)
    ensures
        r == spec_direction_of((mode & 3) as int),
{
    let k: i32 = mode & 3;
    assert(0 <= k <= 3) by (bit_vector)
        requires
            k == mode & 3,
    ;
    if k == 0 {
        Direction::Down
    } else if k == 1 {
        Direction::Left
    } else if k == 2 {
        Direction::Up
    } else {
        Direction::Right
    }
}

} // verus!
