//! The audio worker's state machine.
//!
//! The worker is a dedicated thread that owns the output device, one
//! persistent effects sink, and an optional music sink.  Everything it
//! decides is pure and stands here: [`plan`] maps the current music
//! state and one consumed command to the action the host must perform,
//! and [`commit`] folds the action's outcome back into the state.  The
//! host performs the actions (device, sinks, decoding) and runs the
//! loop; a failed render commits nothing and the loop continues, so no
//! single bad command can stop the worker.

use vstd::prelude::*;

use crate::assets::is_known_sfx;
use crate::assets::known_sfx;
use crate::assets::str_eq;
use crate::command::Command;
use crate::facade::bgm_volume_decision;

verus! {

/// The worker-side safety cap on an effect's amplitude: 2.0x unity.
pub const WORKER_AMP_MAX: u16 = 20000;

/// The name of the one procedural effect, rendered by the synthesizer
/// rather than from a stored asset.
pub open spec fn synth_name() -> Seq<char> {
    "enemy_pickup"@
}

/// The music slot: absent, or playing at a gain.
#[derive(Debug, Clone, Copy, PartialEq, Eq, Structural)]
pub enum MusicState {
    Stopped,
    Playing { gain: u16 },
}

/// What the worker's host must do for one consumed command.
#[derive(Debug, Clone, PartialEq, Eq)]
pub enum Action {
    /// Synthesize the procedural cue and append it to the effects sink,
    /// amplified by `amp`.
    AppendSynth { amp: u16 },
    /// Decode the stored effect `name` and append it to the effects
    /// sink, amplified by `amp`.
    AppendAsset { name: String, amp: u16 },
    /// Nothing to do (unknown effect, or a retune/stop while stopped).
    Ignore,
    /// Create the music sink at `gain` and start the looping track.
    CreateMusicSink { gain: u16 },
    /// Retune the existing music sink in place; the track keeps
    /// playing, it is not restarted.
    SetMusicVolume { gain: u16 },
    /// Halt and release the music sink.
    HaltMusic,
}

/// An effect amplitude under the worker's safety cap.
pub open spec fn amp_capped(gain: u16) -> u16 {
    if gain > WORKER_AMP_MAX {
        WORKER_AMP_MAX
    } else {
        gain
    }
}

/// The action the worker takes for one command in a given music state.
pub open spec fn plan_spec(st: MusicState, cmd: Command) -> Action {
    match cmd {
        Command::PlayEffect { name, gain } => {
            if name@ == synth_name() {
                Action::AppendSynth { amp: amp_capped(gain) }
            } else if is_known_sfx(name@) {
                Action::AppendAsset { name, amp: amp_capped(gain) }
            } else {
                Action::Ignore
            }
        },
        Command::StartMusic { gain } => match st {
            MusicState::Stopped => Action::CreateMusicSink { gain },
            MusicState::Playing { .. } => Action::SetMusicVolume { gain },
        },
        Command::SetMusicGain { gain } => match st {
            MusicState::Stopped => Action::Ignore,
            MusicState::Playing { .. } => Action::SetMusicVolume { gain },
        },
        Command::StopMusic => match st {
            MusicState::Stopped => Action::Ignore,
            MusicState::Playing { .. } => Action::HaltMusic,
        },
    }
}

/// The music state after an action was performed (`done`) or failed and
/// was dropped (`!done`).  Effects never touch the music slot.
pub open spec fn commit_spec(st: MusicState, act: Action, done: bool) -> MusicState {
    if !done {
        st
    } else {
        match act {
            Action::CreateMusicSink { gain } => MusicState::Playing { gain },
            Action::SetMusicVolume { gain } => MusicState::Playing { gain },
            Action::HaltMusic => MusicState::Stopped,
            _ => st,
        }
    }
}

/// Decide the action for one consumed command.
pub fn plan(st: &MusicState, cmd: Command) -> (r: Action)
    ensures
        r == plan_spec(*st, cmd),
{
    match cmd {
        Command::PlayEffect { name, gain } => {
            let amp = if gain > WORKER_AMP_MAX {
                WORKER_AMP_MAX
            } else {
                gain
            };
            if str_eq(name.as_str(), "enemy_pickup") {
                Action::AppendSynth { amp }
            } else if known_sfx(name.as_str()) {
                Action::AppendAsset { name, amp }
            } else {
                Action::Ignore
            }
        },
        Command::StartMusic { gain } => match st {
            MusicState::Stopped => Action::CreateMusicSink { gain },
            MusicState::Playing { .. } => Action::SetMusicVolume { gain },
        },
        Command::SetMusicGain { gain } => match st {
            MusicState::Stopped => Action::Ignore,
            MusicState::Playing { .. } => Action::SetMusicVolume { gain },
        },
        Command::StopMusic => match st {
            MusicState::Stopped => Action::Ignore,
            MusicState::Playing { .. } => Action::HaltMusic,
        },
    }
}

/// Fold an action's outcome back into the music state.
pub fn commit(st: MusicState, act: &Action, done: bool) -> (r: MusicState)
    ensures
        r == commit_spec(st, *act, done),
{
    if !done {
        st
    } else {
        match act {
            Action::CreateMusicSink { gain } => MusicState::Playing { gain: *gain },
            Action::SetMusicVolume { gain } => MusicState::Playing { gain: *gain },
            Action::HaltMusic => MusicState::Stopped,
            _ => st,
        }
    }
}

/// Starting the music while it already plays only retunes the existing
/// sink: no second sink is created and the track is not restarted, so
/// two starts with different gains leave one track at the later gain.
pub proof fn lemma_start_while_playing_retunes(g0: u16, g1: u16)
    ensures
        plan_spec(MusicState::Playing { gain: g0 }, Command::StartMusic { gain: g1 })
            == (Action::SetMusicVolume { gain: g1 }),
        commit_spec(
            MusicState::Playing { gain: g0 },
            plan_spec(MusicState::Playing { gain: g0 }, Command::StartMusic { gain: g1 }),
            true,
        ) == (MusicState::Playing { gain: g1 }),
{
}

/// A stop leaves the music slot absent, from any state.
pub proof fn lemma_stop_music_empties_slot(st: MusicState)
    ensures
        commit_spec(st, plan_spec(st, Command::StopMusic), true) == MusicState::Stopped,
{
}

/// Muting through the volume entry point, or retuning to an inaudible
/// volume, is a stop: the command it enqueues empties the music slot
/// exactly as an explicit stop does, rather than leaving the sink
/// playing at silence.
pub proof fn lemma_muted_volume_empties_slot(st: MusicState, volume: int, muted: bool)
    requires
        muted || volume <= crate::command::GAIN_EPSILON as int,
    ensures
        bgm_volume_decision(volume, muted) == Command::StopMusic,
        commit_spec(st, plan_spec(st, bgm_volume_decision(volume, muted)), true)
            == MusicState::Stopped,
{
}

/// An unknown effect name is a silent no-op: nothing is planned and the
/// music state is untouched, so the worker just consumes the next
/// command.
pub proof fn lemma_unknown_effect_is_noop(st: MusicState, name: String, gain: u16, done: bool)
    requires
        name@ != synth_name(),
        !is_known_sfx(name@),
    ensures
        plan_spec(st, Command::PlayEffect { name, gain }) == Action::Ignore,
        commit_spec(st, plan_spec(st, Command::PlayEffect { name, gain }), done) == st,
{
}

/// A failed render never moves the state machine: whatever was planned,
/// an unperformed action leaves the music state as it was.
pub proof fn lemma_failure_keeps_state(st: MusicState, act: Action)
    ensures
        commit_spec(st, act, false) == st,
{
}

/// Every appended effect's amplitude is under the worker's safety cap,
/// whatever gain the command carried.
pub proof fn lemma_planned_amp_capped(st: MusicState, cmd: Command)
    ensures
        plan_spec(st, cmd) matches Action::AppendSynth { amp } ==> amp <= WORKER_AMP_MAX,
        plan_spec(st, cmd) matches Action::AppendAsset { amp, .. } ==> amp <= WORKER_AMP_MAX,
{
}

} // verus!
