//! The command vocabulary of the engine, and the gain arithmetic that
//! every entry point applies before a command is built.
//!
//! A gain is a linear amplitude factor stored in ten-thousandths of
//! unity: `GAIN_ONE` (10_000) is full volume.  Effects may be boosted up
//! to 1.5x (`EFFECT_GAIN_MAX`); music is capped at unity
//! (`MUSIC_GAIN_MAX`).  Requests at or below `GAIN_EPSILON` are treated
//! as inaudible.

use vstd::prelude::*;

verus! {

/// Unity gain in fixed point (1.0).
pub const GAIN_ONE: u16 = 10000;

/// Largest effect gain: 1.5x unity.
pub const EFFECT_GAIN_MAX: u16 = 15000;

/// Largest music gain: unity.
pub const MUSIC_GAIN_MAX: u16 = 10000;

/// Requests at or below this gain (0.0001) are inaudible and dropped.
pub const GAIN_EPSILON: i64 = 1;

/// A playback request, owned by the channel once sent; the worker is the
/// sole reader.
#[derive(Debug, Clone, PartialEq, Eq)]
pub enum Command {
    /// Append one one-shot effect to the effects mixer.
    PlayEffect { name: String, gain: u16 },
    /// Start the looping music track, or retune its volume if it is
    /// already playing.
    StartMusic { gain: u16 },
    /// Halt and release the music track.
    StopMusic,
    /// Retune the music volume in place; no-op while stopped.
    SetMusicGain { gain: u16 },
}

/// The one failure a caller can see: the worker is gone, so nothing can
/// be enqueued any more.
#[derive(Debug, Clone, Copy, PartialEq, Eq, Structural)]
pub enum AudioError {
    ChannelClosed,
}

/// A caller-supplied volume clamped into `[0, max]`.
pub open spec fn clamped(volume: int, max: int) -> int {
    if volume < 0 {
        0
    } else if volume > max {
        max
    } else {
        volume
    }
}

/// Clamp a raw fixed-point volume into `[0, max]`.
pub fn clamp_gain(volume: i64, max: u16) -> (r: u16)
    ensures
        r == clamped(volume as int, max as int),
{
    if volume < 0 {
        0
    } else if volume > max as i64 {
        max
    } else {
        volume as u16
    }
}

} // verus!
