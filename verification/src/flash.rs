//! The one-shot damage flash: while the marker is attached, the sprite
//! tint oscillates into red; when the timer runs out the tint returns to
//! opaque white and the marker is removed, so the effect cannot rearm
//! itself.

use vstd::prelude::*;

verus! {

/// Duration of the flash, milliseconds.
pub const DEFAULT_DURATION_MS: u64 = 1_000;

/// Number of tint oscillations over the default duration.
pub const N_BLINKS: u64 = 6;

/// An RGBA tint with channels in milli: 1000 is a full channel.
#[derive(Clone, Copy, Debug, PartialEq, Eq, Structural)]
pub struct ColorMilli {
    pub red: u32,
    pub green: u32,
    pub blue: u32,
    pub alpha: u32,
}

/// Opaque white, the neutral sprite tint.
pub open spec fn white_spec() -> ColorMilli {
    ColorMilli { red: 1000u32, green: 1000u32, blue: 1000u32, alpha: 1000u32 }
}

pub fn white() -> (r: ColorMilli)
    ensures
        r == white_spec(),
{
    ColorMilli { red: 1000, green: 1000, blue: 1000, alpha: 1000 }
}

/// The reddened tint while the flash runs. The blink oscillator is a
/// square wave (the sign of a cosine of the elapsed time); its high phase
/// leaves the red channel full, the low phase halves it, and green and
/// blue sit at 350 throughout.
pub open spec fn flash_tint_spec(wave_high: bool) -> ColorMilli {
    ColorMilli {
        red: if wave_high {
            1000u32
        } else {
            500u32
        },
        green: 350u32,
        blue: 350u32,
        alpha: 1000u32,
    }
}

pub fn flash_tint(wave_high: bool) -> (r: ColorMilli)
    ensures
        r == flash_tint_spec(wave_high),
{
    ColorMilli {
        red: if wave_high {
            1000
        } else {
            500
        },
        green: 350,
        blue: 350,
        alpha: 1000,
    }
}

/// The flash marker: a one-shot timer attached to the entity being hit.
#[derive(Clone, Copy, Debug, PartialEq, Eq, Structural)]
pub struct Red {
    pub elapsed_ms: u64,
    pub duration_ms: u64,
}

impl Default for Red {
    /// A freshly attached flash with the default duration.
    fn default() -> (r: Red)
        ensures
            r == (Red { elapsed_ms: 0u64, duration_ms: DEFAULT_DURATION_MS }),
    {
        Red { elapsed_ms: 0, duration_ms: DEFAULT_DURATION_MS }
    }
}

/// One tick of the flash: a finished timer yields opaque white and no
/// marker; otherwise the timer accumulates (capped at the duration) and
/// the tint reddens by the oscillator phase.
pub open spec fn update_red_spec(red: Red, delta_ms: u64, wave_high: bool) -> (Option<Red>,
    ColorMilli) {
    if red.elapsed_ms >= red.duration_ms {
        (None, white_spec())
    } else {
        let e = red.elapsed_ms + delta_ms;
        (
            Some(
                Red {
                    elapsed_ms: if e >= red.duration_ms {
                        red.duration_ms
                    } else {
                        e as u64
                    },
                    duration_ms: red.duration_ms,
                },
            ),
            flash_tint_spec(wave_high),
        )
    }
}

/// Advance the flash by one tick. `None` means the marker comes off the
/// entity; the color is what the tick writes to the sprite tint.
pub fn update_red(red: Red, delta_ms: u64, wave_high: bool) -> (r: (Option<Red>, ColorMilli))
    requires
        red.elapsed_ms < red.duration_ms ==> red.elapsed_ms + delta_ms <= u64::MAX,
    ensures
        r == update_red_spec(red, delta_ms, wave_high),
        r.0 is None <==> red.elapsed_ms >= red.duration_ms,
{
    if red.elapsed_ms >= red.duration_ms {
        (None, white())
    } else {
        let e: u64 = red.elapsed_ms + delta_ms;
        let capped: u64 = if e >= red.duration_ms {
            red.duration_ms
        } else {
            e
        };
        (Some(Red { elapsed_ms: capped, duration_ms: red.duration_ms }), flash_tint(wave_high))
    }
}

/// Law: a finished flash ticks to exactly opaque white with the marker
/// removed, whatever the tick length or the oscillator phase — the
/// termination is idempotent.
pub proof fn lemma_flash_finished_is_white(red: Red, delta_ms: u64, wave_high: bool)
    requires
        red.elapsed_ms >= red.duration_ms,
    ensures
        update_red_spec(red, delta_ms, wave_high) == (None::<Red>, white_spec()),
{
}

/// Law: once the accumulated time reaches the duration, the very next
/// tick returns the tint to opaque white and removes the marker, and the
/// effect cannot run again without being re-attached.
pub proof fn lemma_flash_terminates(
    red: Red,
    delta_ms: u64,
    wave_high: bool,
    later_delta_ms: u64,
    later_wave: bool,
)
    requires
        red.elapsed_ms < red.duration_ms,
        red.elapsed_ms + delta_ms >= red.duration_ms,
    ensures
        update_red_spec(red, delta_ms, wave_high).0 is Some,
        update_red_spec(
            update_red_spec(red, delta_ms, wave_high).0.unwrap(),
            later_delta_ms,
            later_wave,
        ) == (None::<Red>, white_spec()),
{
}

} // verus!
