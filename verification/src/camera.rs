//! The camera-follow controller: each tick the camera chases the tracked
//! target with a speed that scales with distance — a dead zone below a
//! threshold, a hard cap far away — applied as a linear interpolation
//! toward the target.

use vstd::prelude::*;
use vstd::arithmetic::div_mod::{lemma_div_is_ordered, lemma_div_multiples_vanish};
use crate::units::{
    Vec2Milli, mag, scale_milli, scale_milli_spec, lemma_scale_milli_mag, lemma_mul_bound, isqrt,
    sqrt_floor, lemma_sqrt_floor_bounds,
};

verus! {

/// Distance below which the camera moves at base speed only, milli-units.
pub const FOLLOW_CAMERA_TRESHOLD_MILLI: u64 = 100_000;

/// Cap on the closing speed, milli-units per second.
pub const FOLLOW_CAMERA_MAX_SPEED_MILLI: u64 = 1_000_000;

/// Interpolation rate inside the dead zone, milli-units per second.
pub const FOLLOW_CAMERA_BASE_SPEED_MILLI: u64 = 4_500;

/// Positions handed to the controller stay within this magnitude,
/// milli-units, so squared distances fit the machine arithmetic.
pub const POSITION_LIMIT_MILLI: i64 = 1_000_000_000;

/// Largest per-tick elapsed time the controller accepts, milliseconds.
pub const MAX_CAMERA_TICK_MS: u64 = 60_000;

/// Follow-controller tuning. Speeds are milli-units per second and the
/// threshold is in milli-units of distance.
#[derive(Clone, Copy, Debug, PartialEq, Eq, Structural)]
pub struct CameraConfig {
    pub threshold_milli: u64,
    pub base_speed_milli: u64,
    pub max_speed_milli: u64,
}

impl CameraConfig {
    /// Positive threshold, base speed no faster than the cap, and both
    /// small enough that the tick arithmetic stays in range.
    pub open spec fn wf(self) -> bool {
        0 < self.threshold_milli <= 1_000_000_000_000 && 0 < self.base_speed_milli
            <= self.max_speed_milli && self.max_speed_milli <= 10_000_000
    }
}

impl Default for CameraConfig {
    /// The tuning the prototype ships with.
    fn default() -> (r: CameraConfig)
        ensures
            r == (CameraConfig {
                threshold_milli: FOLLOW_CAMERA_TRESHOLD_MILLI,
                base_speed_milli: FOLLOW_CAMERA_BASE_SPEED_MILLI,
                max_speed_milli: FOLLOW_CAMERA_MAX_SPEED_MILLI,
            }),
            r.wf(),
    {
        CameraConfig {
            threshold_milli: FOLLOW_CAMERA_TRESHOLD_MILLI,
            base_speed_milli: FOLLOW_CAMERA_BASE_SPEED_MILLI,
            max_speed_milli: FOLLOW_CAMERA_MAX_SPEED_MILLI,
        }
    }
}

/// Squared distance between camera and target, milli-units squared.
pub open spec fn dist_sq_spec(cam: Vec2Milli, target: Vec2Milli) -> int {
    let dx = target.x - cam.x;
    let dy = target.y - cam.y;
    dx * dx + dy * dy
}

/// Euclidean distance between camera and target, milli-units, rounded
/// down.
pub open spec fn dist_milli_spec(cam: Vec2Milli, target: Vec2Milli) -> int {
    sqrt_floor(dist_sq_spec(cam, target) as nat) as int
}

/// The distance-scaled closing speed: `base * d / threshold`, clamped
/// between the base speed and the cap.
pub open spec fn effective_speed_spec(d: int, cfg: CameraConfig) -> int {
    let raw = (cfg.base_speed_milli * d) / (cfg.threshold_milli as int);
    if raw <= cfg.base_speed_milli {
        cfg.base_speed_milli as int
    } else if raw >= cfg.max_speed_milli {
        cfg.max_speed_milli as int
    } else {
        raw
    }
}

/// The interpolation fraction for a tick, in milli: speed times the
/// elapsed seconds.
pub open spec fn lerp_fraction_spec(d: int, delta_ms: u64, cfg: CameraConfig) -> int {
    effective_speed_spec(d, cfg) * delta_ms / 1000
}

/// One tick of the follow controller: move from `cam` toward `target` by
/// the interpolation fraction for this tick.
pub open spec fn update_camera_spec(
    cam: Vec2Milli,
    target: Vec2Milli,
    delta_ms: u64,
    cfg: CameraConfig,
) -> Vec2Milli {
    let d = dist_milli_spec(cam, target);
    let t = lerp_fraction_spec(d, delta_ms, cfg);
    Vec2Milli {
        x: (cam.x + scale_milli_spec(target.x - cam.x, t)) as i64,
        y: (cam.y + scale_milli_spec(target.y - cam.y, t)) as i64,
    }
}

/// Advance the camera one tick toward the target it tracks.
pub fn update_camera(cam: Vec2Milli, target: Vec2Milli, delta_ms: u64, cfg: &CameraConfig) -> (r:
    Vec2Milli)
    requires
        cfg.wf(),
        mag(cam.x as int) <= POSITION_LIMIT_MILLI,
        mag(cam.y as int) <= POSITION_LIMIT_MILLI,
        mag(target.x as int) <= POSITION_LIMIT_MILLI,
        mag(target.y as int) <= POSITION_LIMIT_MILLI,
        delta_ms <= MAX_CAMERA_TICK_MS,
    ensures
        r == update_camera_spec(cam, target, delta_ms, *cfg),
{
    let dx: i64 = target.x - cam.x;
    let dy: i64 = target.y - cam.y;
    proof {
        lemma_mul_bound(mag(dx as int), mag(dx as int), 2_000_000_000, 2_000_000_000);
        lemma_mul_bound(mag(dy as int), mag(dy as int), 2_000_000_000, 2_000_000_000);
        assert(dx * dx == mag(dx as int) * mag(dx as int)) by (nonlinear_arith);
        assert(dy * dy == mag(dy as int) * mag(dy as int)) by (nonlinear_arith);
        assert(dx * dx >= 0) by (nonlinear_arith);
        assert(dy * dy >= 0) by (nonlinear_arith);
    }
    let sq: u64 = (dx * dx + dy * dy) as u64;
    let d: u64 = isqrt(sq);
    proof {
        lemma_sqrt_floor_bounds(sq as nat);
        assert(d <= 2_900_000_000) by {
            if d > 2_900_000_000 {
                assert(2_900_000_000 * 2_900_000_000 <= (d as int) * (d as int))
                    by (nonlinear_arith)
                    requires
                        2_900_000_000 <= d as int,
                ;
            }
        }
        lemma_mul_bound(cfg.base_speed_milli as int, d as int, 10_000_000, 2_900_000_000);
    }
    let raw: u64 = cfg.base_speed_milli * d / cfg.threshold_milli;
    let eff: u64 = if raw <= cfg.base_speed_milli {
        cfg.base_speed_milli
    } else if raw >= cfg.max_speed_milli {
        cfg.max_speed_milli
    } else {
        raw
    };
    proof {
        lemma_mul_bound(eff as int, delta_ms as int, 10_000_000, MAX_CAMERA_TICK_MS as int);
    }
    let t: u64 = eff * delta_ms / 1000;
    proof {
        lemma_scale_milli_mag(dx as int, t as int);
        lemma_scale_milli_mag(dy as int, t as int);
        lemma_mul_bound(mag(dx as int), t as int, 2_000_000_000, 600_000_000);
        lemma_mul_bound(mag(dy as int), t as int, 2_000_000_000, 600_000_000);
        lemma_div_is_ordered(mag(dx as int) * (t as int), 1_200_000_000_000_000_000, 1000);
        lemma_div_is_ordered(mag(dy as int) * (t as int), 1_200_000_000_000_000_000, 1000);
    }
    let sx: i64 = scale_milli(dx, t as i64);
    let sy: i64 = scale_milli(dy, t as i64);
    Vec2Milli { x: cam.x + sx, y: cam.y + sy }
}

/// Law (dead zone): within the threshold distance the closing speed is
/// exactly the base speed, so one tick moves the camera only by the
/// `base_speed * delta` fraction toward the target — it never snaps.
pub proof fn lemma_camera_dead_zone(d: int, delta_ms: u64, cfg: CameraConfig)
    requires
        cfg.wf(),
        0 <= d <= cfg.threshold_milli,
    ensures
        effective_speed_spec(d, cfg) == cfg.base_speed_milli,
        lerp_fraction_spec(d, delta_ms, cfg) == cfg.base_speed_milli * delta_ms / 1000,
{
    let b = cfg.base_speed_milli as int;
    let th = cfg.threshold_milli as int;
    assert(b * d <= b * th) by (nonlinear_arith)
        requires
            0 <= d <= th,
            0 <= b,
    ;
    lemma_div_is_ordered(b * d, b * th, th);
    lemma_div_multiples_vanish(b, th);
    assert(b * th == th * b) by (nonlinear_arith);
}

/// Law (speed cap): once `base_speed * d` reaches `max_speed * threshold`
/// the closing speed is exactly the cap, so the interpolation fraction is
/// `max_speed * delta` no matter how much farther the target is.
pub proof fn lemma_camera_speed_cap(d: int, delta_ms: u64, cfg: CameraConfig)
    requires
        cfg.wf(),
        0 <= d,
        cfg.base_speed_milli * d >= cfg.max_speed_milli * cfg.threshold_milli,
    ensures
        effective_speed_spec(d, cfg) == cfg.max_speed_milli,
        lerp_fraction_spec(d, delta_ms, cfg) == cfg.max_speed_milli * delta_ms / 1000,
{
    let b = cfg.base_speed_milli as int;
    let m = cfg.max_speed_milli as int;
    let th = cfg.threshold_milli as int;
    lemma_div_is_ordered(m * th, b * d, th);
    lemma_div_multiples_vanish(m, th);
    assert(m * th == th * m) by (nonlinear_arith);
}

} // verus!
