//! Nine-way discretized movement intent and facing direction.

use vstd::prelude::*;
use crate::units::Vec2Milli;

verus! {

/// Discretized movement direction: the eight compass points, or
/// `Nothing` for a zero intent (the player is not moving).
#[derive(Clone, Copy, Debug, PartialEq, Eq, Structural)]
pub enum Direction {
    Up,
    Down,
    Left,
    Right,
    UpRight,
    UpLeft,
    DownRight,
    DownLeft,
    Nothing,
}

impl Direction {
    /// The unit vector for this direction, in milli-units; diagonals use
    /// 707, the floor of 1000 times 1/sqrt 2.
    pub open spec fn vec2_spec(self) -> Vec2Milli {
        match self {
            Direction::Nothing => Vec2Milli { x: 0i64, y: 0i64 },
            Direction::Up => Vec2Milli { x: 0i64, y: 1000i64 },
            Direction::Down => Vec2Milli { x: 0i64, y: -1000i64 },
            Direction::Right => Vec2Milli { x: 1000i64, y: 0i64 },
            Direction::Left => Vec2Milli { x: -1000i64, y: 0i64 },
            Direction::UpRight => Vec2Milli { x: 707i64, y: 707i64 },
            Direction::UpLeft => Vec2Milli { x: -707i64, y: 707i64 },
            Direction::DownRight => Vec2Milli { x: 707i64, y: -707i64 },
            Direction::DownLeft => Vec2Milli { x: -707i64, y: -707i64 },
        }
    }

    /// The unit (or zero) vector this direction stands for.
    pub fn get_vec2(&self) -> (r: Vec2Milli)
        ensures
            r == self.vec2_spec(),
    {
        match self {
            Direction::Nothing => Vec2Milli { x: 0, y: 0 },
            Direction::Up => Vec2Milli { x: 0, y: 1000 },
            Direction::Down => Vec2Milli { x: 0, y: -1000 },
            Direction::Right => Vec2Milli { x: 1000, y: 0 },
            Direction::Left => Vec2Milli { x: -1000, y: 0 },
            Direction::UpRight => Vec2Milli { x: 707, y: 707 },
            Direction::UpLeft => Vec2Milli { x: -707, y: 707 },
            Direction::DownRight => Vec2Milli { x: 707, y: -707 },
            Direction::DownLeft => Vec2Milli { x: -707, y: -707 },
        }
    }

    /// Whether this direction belongs to the leftward family, the
    /// directions whose sprite is drawn horizontally mirrored.
    pub open spec fn is_leftward_spec(self) -> bool {
        self is Left || self is UpLeft || self is DownLeft
    }

    /// Whether the sprite for this direction is drawn mirrored.
    pub fn is_leftward(&self) -> (r: bool)
        ensures
            r == self.is_leftward_spec(),
    {
        match self {
            Direction::Left | Direction::UpLeft | Direction::DownLeft => true,
            _ => false,
        }
    }
}

/// Classification of a raw intent vector whose components are -1, 0 or 1
/// (the sum of pressed directional keys) into the nine directions.
pub open spec fn direction_of_intent_spec(x: int, y: int) -> Direction {
    if x == 0 && y == 0 {
        Direction::Nothing
    } else if x == 0 && y == 1 {
        Direction::Up
    } else if x == 0 && y == -1 {
        Direction::Down
    } else if x == 1 && y == 0 {
        Direction::Right
    } else if x == -1 && y == 0 {
        Direction::Left
    } else if x == 1 && y == 1 {
        Direction::UpRight
    } else if x == -1 && y == 1 {
        Direction::UpLeft
    } else if x == 1 && y == -1 {
        Direction::DownRight
    } else {
        Direction::DownLeft
    }
}

/// Discretize a raw intent vector. The domain is total over the nine
/// canonical component pairs; any other pair is a programming error at
/// the input-reading edge and is excluded here.
pub fn direction_of_intent(x: i8, y: i8) -> (r: Direction)
    requires
        -1 <= x <= 1,
        -1 <= y <= 1,
    ensures
        r == direction_of_intent_spec(x as int, y as int),
{
    if x == 0 && y == 0 {
        Direction::Nothing
    } else if x == 0 && y == 1 {
        Direction::Up
    } else if x == 0 && y == -1 {
        Direction::Down
    } else if x == 1 && y == 0 {
        Direction::Right
    } else if x == -1 && y == 0 {
        Direction::Left
    } else if x == 1 && y == 1 {
        Direction::UpRight
    } else if x == -1 && y == 1 {
        Direction::UpLeft
    } else if x == 1 && y == -1 {
        Direction::DownRight
    } else {
        Direction::DownLeft
    }
}

/// Intent component from a pair of opposed keys: 1 for the positive key,
/// -1 for the negative one, 0 for both or neither.
pub open spec fn key_axis_spec(pos: bool, neg: bool) -> int {
    (if pos {
        1int
    } else {
        0int
    }) - (if neg {
        1int
    } else {
        0int
    })
}

/// Collect directional key state into a discretized intent, as the
/// input-recording step does each tick.
pub fn direction_from_keys(up: bool, down: bool, left: bool, right: bool) -> (r: Direction)
    ensures
        r == direction_of_intent_spec(key_axis_spec(right, left), key_axis_spec(up, down)),
{
    let mut x: i8 = 0;
    let mut y: i8 = 0;
    if up {
        y = y + 1;
    }
    if down {
        y = y - 1;
    }
    if left {
        x = x - 1;
    }
    if right {
        x = x + 1;
    }
    direction_of_intent(x, y)
}

} // verus!
