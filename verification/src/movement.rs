//! The four-way character controller used with named engine animation
//! tags: a movement event moves the player by its speed along the
//! normalized intent, classifies the facing as one of four directions,
//! and picks the animation tag to loop.

use vstd::prelude::*;
use vstd::string::StringExecFns;
use crate::units::{
    Vec2Milli, mag, scale_milli, scale_milli_spec, lemma_scale_milli_mag, lemma_mul_bound,
};
use vstd::arithmetic::div_mod::lemma_div_is_ordered;

verus! {

/// Whether the character is walking this tick.
#[derive(Clone, Copy, Debug, PartialEq, Eq, Structural)]
pub enum PlayerState {
    Walk,
    Idle,
}

/// Four-way facing for the named animation tags.
#[derive(Clone, Copy, Debug, PartialEq, Eq, Structural)]
pub enum PlayerDirection {
    Up,
    Down,
    Left,
    Right,
}

/// Positions handed to the controller stay within this magnitude,
/// milli-units.
pub const WALK_POSITION_LIMIT_MILLI: i64 = 1_000_000_000_000;

/// The player character's movement data: walk speed in milli-units per
/// movement event, current motion state and facing.
#[derive(Clone, Copy, Debug, PartialEq, Eq, Structural)]
pub struct Player {
    pub walk_speed_milli: i64,
    pub state: PlayerState,
    pub direction: PlayerDirection,
}

impl Player {
    pub open spec fn wf(self) -> bool {
        0 <= self.walk_speed_milli <= 1_000_000_000
    }
}

/// The facing a nonzero normalized intent selects: vertical when the
/// vertical component strictly dominates, horizontal otherwise.
pub open spec fn classify_direction_spec(dir: Vec2Milli) -> PlayerDirection {
    if mag(dir.y as int) > mag(dir.x as int) {
        if dir.y > 0 {
            PlayerDirection::Up
        } else {
            PlayerDirection::Down
        }
    } else {
        if dir.x > 0 {
            PlayerDirection::Right
        } else {
            PlayerDirection::Left
        }
    }
}

/// One movement event: a zero intent only idles the state; a nonzero
/// normalized intent walks the position by the player's speed along it,
/// re-classifies the facing, and mirrors the sprite (the horizontal
/// scale) when the facing turns horizontal.
pub open spec fn apply_movement_spec(p: Player, pos: Vec2Milli, scale_x: i64, dir: Vec2Milli) -> (
    Player,
    Vec2Milli,
    i64,
) {
    if dir.x == 0 && dir.y == 0 {
        (
            Player {
                walk_speed_milli: p.walk_speed_milli,
                state: PlayerState::Idle,
                direction: p.direction,
            },
            pos,
            scale_x,
        )
    } else {
        let np = Vec2Milli {
            x: (pos.x + scale_milli_spec(p.walk_speed_milli as int, dir.x as int)) as i64,
            y: (pos.y + scale_milli_spec(p.walk_speed_milli as int, dir.y as int)) as i64,
        };
        let ns = if mag(dir.y as int) > mag(dir.x as int) {
            scale_x as int
        } else if dir.x > 0 {
            1int
        } else {
            -1int
        };
        (
            Player {
                walk_speed_milli: p.walk_speed_milli,
                state: PlayerState::Walk,
                direction: classify_direction_spec(dir),
            },
            np,
            ns as i64,
        )
    }
}

/// Apply one movement event to the player, its position and its sprite's
/// horizontal scale. `dir` is the normalized intent from the input
/// binding, in milli-units (zero when no direction is held).
pub fn apply_movement(player: &mut Player, pos: &mut Vec2Milli, scale_x: &mut i64, dir: Vec2Milli)
    requires
        old(player).wf(),
        mag(dir.x as int) <= 1000,
        mag(dir.y as int) <= 1000,
        mag(old(pos).x as int) <= WALK_POSITION_LIMIT_MILLI,
        mag(old(pos).y as int) <= WALK_POSITION_LIMIT_MILLI,
    ensures
        (*final(player), *final(pos), *final(scale_x)) == apply_movement_spec(
            *old(player),
            *old(pos),
            *old(scale_x),
            dir,
        ),
        final(player).wf(),
{
    if dir.x == 0 && dir.y == 0 {
        player.state = PlayerState::Idle;
        return ;
    }
    proof {
        lemma_scale_milli_mag(player.walk_speed_milli as int, dir.x as int);
        lemma_scale_milli_mag(player.walk_speed_milli as int, dir.y as int);
        lemma_mul_bound(mag(player.walk_speed_milli as int), mag(dir.x as int), 1_000_000_000, 1000);
        lemma_mul_bound(mag(player.walk_speed_milli as int), mag(dir.y as int), 1_000_000_000, 1000);
        lemma_div_is_ordered(
            mag(player.walk_speed_milli as int) * mag(dir.x as int),
            1_000_000_000_000,
            1000,
        );
        lemma_div_is_ordered(
            mag(player.walk_speed_milli as int) * mag(dir.y as int),
            1_000_000_000_000,
            1000,
        );
    }
    player.state = PlayerState::Walk;
    pos.x = pos.x + scale_milli(player.walk_speed_milli, dir.x);
    pos.y = pos.y + scale_milli(player.walk_speed_milli, dir.y);
    let my: i64 = if dir.y >= 0 {
        dir.y
    } else {
        -dir.y
    };
    let mx: i64 = if dir.x >= 0 {
        dir.x
    } else {
        -dir.x
    };
    if my > mx {
        player.direction = if dir.y > 0 {
            PlayerDirection::Up
        } else {
            PlayerDirection::Down
        };
    } else {
        if dir.x > 0 {
            player.direction = PlayerDirection::Right;
            *scale_x = 1;
        } else {
            player.direction = PlayerDirection::Left;
            *scale_x = -1;
        }
    }
}

/// The engine animation tag for a state and facing: a single idle cycle,
/// and per-direction walk cycles with the left-facing walk reusing the
/// right-facing tag (the sprite is mirrored instead).
pub open spec fn animation_tag_spec(state: PlayerState, direction: PlayerDirection) -> Seq<char> {
    if state is Idle {
        "idle"@
    } else {
        match direction {
            PlayerDirection::Up => "walk-up"@,
            PlayerDirection::Down => "walk-down"@,
            PlayerDirection::Left | PlayerDirection::Right => "walk-right"@,
        }
    }
}

/// The name of the animation to loop for this state and facing.
pub fn animation_tag(state: PlayerState, direction: PlayerDirection) -> (r: String)
    ensures
        r@ == animation_tag_spec(state, direction),
{
    match state {
        PlayerState::Idle => String::from_str("idle"),
        PlayerState::Walk => match direction {
            PlayerDirection::Up => String::from_str("walk-up"),
            PlayerDirection::Down => String::from_str("walk-down"),
            PlayerDirection::Left | PlayerDirection::Right => String::from_str("walk-right"),
        },
    }
}

} // verus!
