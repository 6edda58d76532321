use walkcycle::animation::{
    choose_step_sound, resolve_flip, resolve_state, update_animation_atlas,
    update_animation_movement, PlayerAnimation, PlayerAnimationState, IDLE_INTERVAL_US,
    WALKING_INTERVAL_US,
};
use walkcycle::direction::Direction;

#[test]
fn new_starts_idle_facing_down() {
    let anim = PlayerAnimation::new();
    assert_eq!(anim.state, PlayerAnimationState::Idling(Direction::Down));
    assert_eq!(anim.frame, 0);
    assert_eq!(anim.timer.elapsed_us, 0);
    assert_eq!(anim.timer.interval_us, IDLE_INTERVAL_US);
    assert!(!anim.timer.finished);
}

#[test]
fn resolve_state_walks_in_each_nonzero_intent() {
    let prev = PlayerAnimationState::Idling(Direction::Down);
    let walking_intents = [
        Direction::Up,
        Direction::Down,
        Direction::Left,
        Direction::Right,
        Direction::UpRight,
        Direction::UpLeft,
        Direction::DownRight,
        Direction::DownLeft,
    ];
    for intent in walking_intents {
        assert_eq!(resolve_state(intent, prev), PlayerAnimationState::Walking(intent));
    }
}

#[test]
fn resolve_state_keeps_direction_when_stopping() {
    let prev = PlayerAnimationState::Walking(Direction::UpLeft);
    assert_eq!(
        resolve_state(Direction::Nothing, prev),
        PlayerAnimationState::Idling(Direction::UpLeft)
    );
    let prev_idle = PlayerAnimationState::Idling(Direction::Right);
    assert_eq!(
        resolve_state(Direction::Nothing, prev_idle),
        PlayerAnimationState::Idling(Direction::Right)
    );
}

#[test]
fn frame_advances_on_expiry_and_wraps_idle() {
    let mut anim = PlayerAnimation::new();
    // Three idle expiries bring the frame back to 0.
    for expected in [1, 2, 0] {
        anim.update_timer(IDLE_INTERVAL_US);
        assert!(anim.timer.finished);
        assert_eq!(anim.frame, expected);
    }
    assert_eq!(anim.state, PlayerAnimationState::Idling(Direction::Down));
}

#[test]
fn frame_advances_on_expiry_and_wraps_walking() {
    let mut anim = PlayerAnimation::walking(Direction::Right);
    for expected in [1, 2, 3, 0] {
        anim.update_timer(WALKING_INTERVAL_US);
        assert_eq!(anim.frame, expected);
    }
}

#[test]
fn no_advance_below_interval_and_remainder_kept() {
    let mut anim = PlayerAnimation::walking(Direction::Down);
    anim.update_timer(60_000);
    assert!(!anim.timer.finished);
    assert_eq!(anim.frame, 0);
    assert_eq!(anim.timer.elapsed_us, 60_000);
    // 60_000 + 70_000 crosses 100_000 and keeps the 30_000 remainder.
    anim.update_timer(70_000);
    assert!(anim.timer.finished);
    assert_eq!(anim.frame, 1);
    assert_eq!(anim.timer.elapsed_us, 30_000);
}

#[test]
fn long_tick_advances_frame_per_completed_interval() {
    let mut anim = PlayerAnimation::walking(Direction::Right);
    // Two and a half walking intervals in one tick: two expiries.
    anim.update_timer(250_000);
    assert!(anim.timer.finished);
    assert_eq!(anim.frame, 2);
    assert_eq!(anim.timer.elapsed_us, 50_000);
    // 50_000 + 450_000 completes five more intervals: (2 + 5) % 4 == 3.
    anim.update_timer(450_000);
    assert_eq!(anim.frame, 3);
    assert_eq!(anim.timer.elapsed_us, 0);
}

#[test]
fn update_state_resets_only_on_change() {
    let mut anim = PlayerAnimation::new();
    anim.update_timer(IDLE_INTERVAL_US);
    assert_eq!(anim.frame, 1);
    // Same state: nothing is reset.
    anim.update_state(PlayerAnimationState::Idling(Direction::Down));
    assert_eq!(anim.frame, 1);
    // Changed direction within the same variant: full reset.
    anim.update_state(PlayerAnimationState::Idling(Direction::Left));
    assert_eq!(anim.frame, 0);
    assert_eq!(anim.timer.elapsed_us, 0);
    // Changed variant: reset with the walking interval.
    anim.update_state(PlayerAnimationState::Walking(Direction::Left));
    assert_eq!(anim.timer.interval_us, WALKING_INTERVAL_US);
    assert_eq!(anim.frame, 0);
}

#[test]
fn atlas_index_matches_table() {
    let mut anim = PlayerAnimation::idling(Direction::Down);
    assert_eq!(anim.get_atlas_index(), 0);
    anim = PlayerAnimation::walking(Direction::Right);
    anim.update_timer(WALKING_INTERVAL_US);
    anim.update_timer(WALKING_INTERVAL_US);
    assert_eq!(anim.frame, 2);
    assert_eq!(anim.get_atlas_index(), 37);
}

#[test]
fn atlas_index_family_bases() {
    assert_eq!(PlayerAnimation::idling(Direction::Up).get_atlas_index(), 20);
    assert_eq!(PlayerAnimation::idling(Direction::Left).get_atlas_index(), 10);
    assert_eq!(PlayerAnimation::idling(Direction::UpLeft).get_atlas_index(), 15);
    assert_eq!(PlayerAnimation::idling(Direction::DownRight).get_atlas_index(), 5);
    assert_eq!(PlayerAnimation::idling(Direction::Nothing).get_atlas_index(), 8);
    assert_eq!(PlayerAnimation::walking(Direction::Up).get_atlas_index(), 45);
    assert_eq!(PlayerAnimation::walking(Direction::Left).get_atlas_index(), 35);
    assert_eq!(PlayerAnimation::walking(Direction::UpRight).get_atlas_index(), 40);
    assert_eq!(PlayerAnimation::walking(Direction::DownLeft).get_atlas_index(), 30);
    assert_eq!(PlayerAnimation::walking(Direction::Nothing).get_atlas_index(), 25);
}

#[test]
fn footstep_fires_only_on_expiry_landing_on_frame_one() {
    let mut anim = PlayerAnimation::walking(Direction::Right);
    // Non-expiry tick: no step.
    anim.update_timer(50_000);
    assert!(choose_step_sound(&anim, 4).is_none());
    // Expiry landing on frame 1: exactly one step request.
    anim.update_timer(WALKING_INTERVAL_US);
    assert_eq!(anim.frame, 1);
    let step = choose_step_sound(&anim, 4);
    assert!(step.is_some());
    assert!(step.unwrap() < 4);
    // Next expiry lands on frame 2: no step.
    anim.update_timer(WALKING_INTERVAL_US);
    assert_eq!(anim.frame, 2);
    assert!(choose_step_sound(&anim, 4).is_none());
}

#[test]
fn footstep_never_fires_while_idling() {
    let mut anim = PlayerAnimation::idling(Direction::Down);
    for _ in 0..6 {
        anim.update_timer(IDLE_INTERVAL_US);
        assert!(choose_step_sound(&anim, 4).is_none());
    }
}

#[test]
fn footstep_clip_index_is_in_range() {
    let mut anim = PlayerAnimation::walking(Direction::Up);
    anim.update_timer(WALKING_INTERVAL_US);
    assert_eq!(anim.frame, 1);
    // With a single clip the only admissible index is 0.
    assert_eq!(choose_step_sound(&anim, 1), Some(0));
}

#[test]
fn flip_follows_leftward_directions() {
    assert!(resolve_flip(Direction::Left, false));
    assert!(resolve_flip(Direction::UpLeft, false));
    assert!(resolve_flip(Direction::DownLeft, false));
    assert!(!resolve_flip(Direction::Right, true));
    assert!(!resolve_flip(Direction::Up, true));
    assert!(!resolve_flip(Direction::DownRight, true));
}

#[test]
fn movement_resolution_switches_and_mirrors() {
    let mut anim = PlayerAnimation::new();
    let mut flip = false;
    update_animation_movement(&mut anim, &mut flip, Direction::UpLeft);
    assert_eq!(anim.state, PlayerAnimationState::Walking(Direction::UpLeft));
    assert_eq!(anim.frame, 0);
    assert!(flip);
    // Stopping keeps both the facing and the mirror flag.
    update_animation_movement(&mut anim, &mut flip, Direction::Nothing);
    assert_eq!(anim.state, PlayerAnimationState::Idling(Direction::UpLeft));
    assert!(flip);
}

#[test]
fn atlas_written_only_when_frame_changed() {
    let mut anim = PlayerAnimation::walking(Direction::Right);
    anim.update_timer(50_000);
    assert_eq!(update_animation_atlas(&anim), None);
    anim.update_timer(50_000);
    assert_eq!(anim.frame, 1);
    assert_eq!(update_animation_atlas(&anim), Some(36));
}

#[test]
fn flip_retained_while_idle() {
    assert!(resolve_flip(Direction::Nothing, true));
    assert!(!resolve_flip(Direction::Nothing, false));
}
