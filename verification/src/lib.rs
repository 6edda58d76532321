//! Verified core of a small top-down 2D character prototype: a directional
//! sprite-animation state machine, a distance-scaled camera-follow
//! controller, a one-shot damage-flash effect, and the movement rules that
//! drive them. Engine wiring (rendering, input devices, asset loading)
//! lives outside this crate and exchanges plain values with it.

pub mod animation;
pub mod camera;
pub mod direction;
pub mod flash;
pub mod movement;
pub mod units;
