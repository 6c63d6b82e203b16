//! The command facade: the synchronous entry points callers use to
//! enqueue playback requests.
//!
//! Each entry point first decides, from the caller's volume and mute
//! intent alone, whether anything should be enqueued and with what
//! clamped gain; the decision is a pure function stated here in full.
//! Only then does it touch the channel, whose sole failure mode is that
//! the worker is gone.  Nothing here blocks or waits for playback.

use vstd::prelude::*;

use crate::channel::AudioTx;
use crate::command::clamp_gain;
use crate::command::clamped;
use crate::command::AudioError;
use crate::command::Command;
use crate::command::EFFECT_GAIN_MAX;
use crate::command::GAIN_EPSILON;
use crate::command::MUSIC_GAIN_MAX;

verus! {

/// What `play_sfx` enqueues: nothing when muted or inaudible, otherwise
/// the effect with its gain clamped into `[0, EFFECT_GAIN_MAX]`.
pub open spec fn sfx_decision(name: String, volume: int, muted: bool) -> Option<Command> {
    if muted || volume <= GAIN_EPSILON as int {
        None
    } else {
        Some(
            Command::PlayEffect {
                name,
                gain: clamped(volume, EFFECT_GAIN_MAX as int) as u16,
            },
        )
    }
}

/// What `bgm_play` enqueues: nothing when muted or inaudible, otherwise
/// a start/retune with the gain clamped into `[0, MUSIC_GAIN_MAX]`.
pub open spec fn bgm_play_decision(volume: int, muted: bool) -> Option<Command> {
    if muted || volume <= GAIN_EPSILON as int {
        None
    } else {
        Some(Command::StartMusic { gain: clamped(volume, MUSIC_GAIN_MAX as int) as u16 })
    }
}

/// What `bgm_volume` enqueues: muting the music, or turning it down to
/// an inaudible volume, frees its sink outright (an implicit stop, not
/// silence-at-zero); otherwise the clamped retune.
pub open spec fn bgm_volume_decision(volume: int, muted: bool) -> Command {
    if muted || volume <= GAIN_EPSILON as int {
        Command::StopMusic
    } else {
        Command::SetMusicGain { gain: clamped(volume, MUSIC_GAIN_MAX as int) as u16 }
    }
}

/// The command `play_sfx` would enqueue, if any.
pub fn sfx_command(name: String, volume: i64, muted: bool) -> (r: Option<Command>)
    ensures
        r == sfx_decision(name, volume as int, muted),
{
    if muted || volume <= GAIN_EPSILON {
        None
    } else {
        Some(Command::PlayEffect { name, gain: clamp_gain(volume, EFFECT_GAIN_MAX) })
    }
}

/// The command `bgm_play` would enqueue, if any.
pub fn bgm_play_command(volume: i64, muted: bool) -> (r: Option<Command>)
    ensures
        r == bgm_play_decision(volume as int, muted),
{
    if muted || volume <= GAIN_EPSILON {
        None
    } else {
        Some(Command::StartMusic { gain: clamp_gain(volume, MUSIC_GAIN_MAX) })
    }
}

/// The command `bgm_volume` enqueues.
pub fn bgm_volume_command(volume: i64, muted: bool) -> (r: Command)
    ensures
        r == bgm_volume_decision(volume as int, muted),
{
    if muted || volume <= GAIN_EPSILON {
        Command::StopMusic
    } else {
        Command::SetMusicGain { gain: clamp_gain(volume, MUSIC_GAIN_MAX) }
    }
}

/// The command `bgm_stop` enqueues.
pub fn bgm_stop_command() -> (r: Command)
    ensures
        r == Command::StopMusic,
{
    Command::StopMusic
}

/// Enqueue a one-shot effect.  A muted or inaudible request enqueues
/// nothing and succeeds; otherwise the clamped command is sent, and
/// only a dead worker makes that fail.
pub fn play_sfx(tx: &AudioTx, name: String, volume: i64, muted: bool) -> (r: Result<
    (),
    AudioError,
>)
    ensures
        sfx_decision(name, volume as int, muted) is None ==> r is Ok,
        r matches Err(e) ==> e == AudioError::ChannelClosed && sfx_decision(
            name,
            volume as int,
            muted,
        ) is Some,
{
    match sfx_command(name, volume, muted) {
        None => Ok(()),
        Some(c) => tx.send(c),
    }
}

/// Start the looping music track (or retune it if already playing).  A
/// muted or inaudible request enqueues nothing and succeeds.
pub fn bgm_play(tx: &AudioTx, volume: i64, muted: bool) -> (r: Result<(), AudioError>)
    ensures
        bgm_play_decision(volume as int, muted) is None ==> r is Ok,
        r matches Err(e) ==> e == AudioError::ChannelClosed && bgm_play_decision(
            volume as int,
            muted,
        ) is Some,
{
    match bgm_play_command(volume, muted) {
        None => Ok(()),
        Some(c) => tx.send(c),
    }
}

/// Halt and release the music track.
pub fn bgm_stop(tx: &AudioTx) -> (r: Result<(), AudioError>)
    ensures
        r matches Err(e) ==> e == AudioError::ChannelClosed,
{
    tx.send(bgm_stop_command())
}

/// Retune the music volume; muting it, or setting it at or below the
/// inaudible threshold, instead stops the track to free its sink.
pub fn bgm_volume(tx: &AudioTx, volume: i64, muted: bool) -> (r: Result<(), AudioError>)
    ensures
        r matches Err(e) ==> e == AudioError::ChannelClosed,
{
    tx.send(bgm_volume_command(volume, muted))
}

/// A muted or inaudible request is a no-op: neither the effect nor the
/// music-start entry point enqueues anything.  (The volume entry point
/// is deliberately not silent on such a request: it becomes an implicit
/// stop instead, see [`lemma_muted_or_inaudible_volume_is_stop`].)
pub proof fn lemma_muted_or_inaudible_is_noop(name: String, volume: int, muted: bool)
    requires
        muted || volume <= GAIN_EPSILON as int,
    ensures
        sfx_decision(name, volume, muted) is None,
        bgm_play_decision(volume, muted) is None,
{
}

/// Every gain the facade enqueues is already clamped: effects into
/// `[0, EFFECT_GAIN_MAX]`, music into `[0, MUSIC_GAIN_MAX]`; volumes
/// outside range are clamped, never rejected.
pub proof fn lemma_enqueued_gains_in_range(name: String, volume: int, muted: bool)
    ensures
        sfx_decision(name, volume, muted) matches Some(c) ==> (c matches Command::PlayEffect {
            gain,
            ..
        } && gain <= EFFECT_GAIN_MAX),
        bgm_play_decision(volume, muted) matches Some(c) ==> (c matches Command::StartMusic {
            gain,
        } && gain <= MUSIC_GAIN_MAX),
        bgm_volume_decision(volume, muted) matches Command::SetMusicGain { gain } ==> gain
            <= MUSIC_GAIN_MAX,
{
}

/// Muting through the volume entry point, or retuning to an inaudible
/// volume, is the same command as an explicit stop: the music slot is
/// freed rather than left playing at silence.
pub proof fn lemma_muted_or_inaudible_volume_is_stop(volume: int, muted: bool)
    requires
        muted || volume <= GAIN_EPSILON as int,
    ensures
        bgm_volume_decision(volume, muted) == Command::StopMusic,
{
}

} // verus!
