use walkcycle::movement::{animation_tag, apply_movement, Player, PlayerDirection, PlayerState};
use walkcycle::units::Vec2Milli;

fn player(speed: i64) -> Player {
    Player { walk_speed_milli: speed, state: PlayerState::Idle, direction: PlayerDirection::Right }
}

#[test]
fn zero_intent_only_idles() {
    let mut p = player(1000);
    p.state = PlayerState::Walk;
    p.direction = PlayerDirection::Up;
    let mut pos = Vec2Milli { x: 5_000, y: -2_000 };
    let mut scale_x: i64 = -1;
    apply_movement(&mut p, &mut pos, &mut scale_x, Vec2Milli { x: 0, y: 0 });
    assert_eq!(p.state, PlayerState::Idle);
    assert_eq!(p.direction, PlayerDirection::Up);
    assert_eq!(pos, Vec2Milli { x: 5_000, y: -2_000 });
    assert_eq!(scale_x, -1);
}

#[test]
fn walking_right_moves_and_faces_right() {
    let mut p = player(1000);
    let mut pos = Vec2Milli { x: 0, y: 0 };
    let mut scale_x: i64 = -1;
    apply_movement(&mut p, &mut pos, &mut scale_x, Vec2Milli { x: 1000, y: 0 });
    assert_eq!(p.state, PlayerState::Walk);
    assert_eq!(p.direction, PlayerDirection::Right);
    assert_eq!(pos, Vec2Milli { x: 1000, y: 0 });
    assert_eq!(scale_x, 1);
}

#[test]
fn walking_left_mirrors_the_sprite() {
    let mut p = player(2000);
    let mut pos = Vec2Milli { x: 0, y: 0 };
    let mut scale_x: i64 = 1;
    apply_movement(&mut p, &mut pos, &mut scale_x, Vec2Milli { x: -1000, y: 0 });
    assert_eq!(p.direction, PlayerDirection::Left);
    assert_eq!(pos, Vec2Milli { x: -2000, y: 0 });
    assert_eq!(scale_x, -1);
}

#[test]
fn dominant_vertical_intent_faces_up_or_down() {
    let mut p = player(1000);
    let mut pos = Vec2Milli { x: 0, y: 0 };
    let mut scale_x: i64 = 1;
    apply_movement(&mut p, &mut pos, &mut scale_x, Vec2Milli { x: 0, y: 1000 });
    assert_eq!(p.direction, PlayerDirection::Up);
    assert_eq!(pos, Vec2Milli { x: 0, y: 1000 });
    // The vertical branch leaves the horizontal scale alone.
    assert_eq!(scale_x, 1);
    apply_movement(&mut p, &mut pos, &mut scale_x, Vec2Milli { x: 0, y: -1000 });
    assert_eq!(p.direction, PlayerDirection::Down);
    assert_eq!(pos, Vec2Milli { x: 0, y: 0 });
}

#[test]
fn diagonal_tie_goes_horizontal() {
    // Equal components: the vertical branch needs strict dominance.
    let mut p = player(1000);
    let mut pos = Vec2Milli { x: 0, y: 0 };
    let mut scale_x: i64 = -1;
    apply_movement(&mut p, &mut pos, &mut scale_x, Vec2Milli { x: 707, y: 707 });
    assert_eq!(p.direction, PlayerDirection::Right);
    assert_eq!(pos, Vec2Milli { x: 707, y: 707 });
    assert_eq!(scale_x, 1);
}

#[test]
fn movement_step_truncates_toward_zero() {
    // speed 333 along a diagonal of 707: 333 * 707 / 1000 = 235.431
    // truncates to 235 on the positive axis and -235 on the negative.
    let mut p = player(333);
    let mut pos = Vec2Milli { x: 0, y: 0 };
    let mut scale_x: i64 = 1;
    apply_movement(&mut p, &mut pos, &mut scale_x, Vec2Milli { x: 707, y: -707 });
    assert_eq!(pos, Vec2Milli { x: 235, y: -235 });
}

#[test]
fn animation_tags_match_states() {
    assert_eq!(animation_tag(PlayerState::Idle, PlayerDirection::Up), "idle");
    assert_eq!(animation_tag(PlayerState::Idle, PlayerDirection::Left), "idle");
    assert_eq!(animation_tag(PlayerState::Walk, PlayerDirection::Up), "walk-up");
    assert_eq!(animation_tag(PlayerState::Walk, PlayerDirection::Down), "walk-down");
    assert_eq!(animation_tag(PlayerState::Walk, PlayerDirection::Right), "walk-right");
    // Leftward walking reuses the right-facing tag; the sprite mirrors.
    assert_eq!(animation_tag(PlayerState::Walk, PlayerDirection::Left), "walk-right");
}
