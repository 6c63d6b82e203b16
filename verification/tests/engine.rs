//! End-to-end behaviour of the facade, the command channel, and the
//! worker state machine, exercised with the real channel underneath.

use snake_audio::channel::audio_channel;
use snake_audio::channel::ChannelPoll;
use snake_audio::command::clamp_gain;
use snake_audio::command::AudioError;
use snake_audio::command::Command;
use snake_audio::facade::bgm_play;
use snake_audio::facade::bgm_play_command;
use snake_audio::facade::bgm_stop;
use snake_audio::facade::bgm_volume;
use snake_audio::facade::bgm_volume_command;
use snake_audio::facade::play_sfx;
use snake_audio::facade::sfx_command;
use snake_audio::worker::commit;
use snake_audio::worker::plan;
use snake_audio::worker::Action;
use snake_audio::worker::MusicState;

#[test]
fn muted_requests_enqueue_nothing() {
    let (tx, rx) = audio_channel();
    assert_eq!(play_sfx(&tx, "ui".to_string(), 10000, true), Ok(()));
    assert_eq!(bgm_play(&tx, 10000, true), Ok(()));
    assert_eq!(rx.poll(), ChannelPoll::Nothing);
}

#[test]
fn inaudible_requests_enqueue_nothing() {
    let (tx, rx) = audio_channel();
    assert_eq!(play_sfx(&tx, "eat".to_string(), 1, false), Ok(()));
    assert_eq!(play_sfx(&tx, "eat".to_string(), 0, false), Ok(()));
    assert_eq!(play_sfx(&tx, "eat".to_string(), -50, false), Ok(()));
    assert_eq!(bgm_play(&tx, 1, false), Ok(()));
    assert_eq!(rx.poll(), ChannelPoll::Nothing);
}

#[test]
fn audible_request_is_enqueued() {
    let (tx, rx) = audio_channel();
    assert_eq!(play_sfx(&tx, "dash".to_string(), 2, false), Ok(()));
    assert_eq!(
        rx.poll(),
        ChannelPoll::Got(Command::PlayEffect { name: "dash".to_string(), gain: 2 })
    );
    assert_eq!(rx.poll(), ChannelPoll::Nothing);
}

#[test]
fn effect_gain_clamps_to_one_and_a_half() {
    assert_eq!(
        sfx_command("ui".to_string(), 99999, false),
        Some(Command::PlayEffect { name: "ui".to_string(), gain: 15000 })
    );
    assert_eq!(
        sfx_command("ui".to_string(), 15000, false),
        Some(Command::PlayEffect { name: "ui".to_string(), gain: 15000 })
    );
    assert_eq!(
        sfx_command("ui".to_string(), 14999, false),
        Some(Command::PlayEffect { name: "ui".to_string(), gain: 14999 })
    );
}

#[test]
fn music_gain_clamps_to_unity() {
    assert_eq!(bgm_play_command(20000, false), Some(Command::StartMusic { gain: 10000 }));
    assert_eq!(bgm_play_command(4500, false), Some(Command::StartMusic { gain: 4500 }));
    assert_eq!(bgm_volume_command(20000, false), Command::SetMusicGain { gain: 10000 });
}

#[test]
fn negative_volume_clamps_to_zero() {
    assert_eq!(clamp_gain(-7, 15000), 0);
    assert_eq!(clamp_gain(0, 15000), 0);
    assert_eq!(clamp_gain(7, 15000), 7);
}

#[test]
fn start_while_playing_retunes_without_second_sink() {
    let st = MusicState::Stopped;
    let act = plan(&st, Command::StartMusic { gain: 4500 });
    assert_eq!(act, Action::CreateMusicSink { gain: 4500 });
    let st = commit(st, &act, true);
    assert_eq!(st, MusicState::Playing { gain: 4500 });

    let act = plan(&st, Command::StartMusic { gain: 8000 });
    assert_eq!(act, Action::SetMusicVolume { gain: 8000 });
    let st = commit(st, &act, true);
    assert_eq!(st, MusicState::Playing { gain: 8000 });
}

#[test]
fn muted_volume_request_is_a_stop() {
    assert_eq!(bgm_volume_command(5000, true), Command::StopMusic);
    let st = MusicState::Playing { gain: 5000 };
    let act = plan(&st, bgm_volume_command(5000, true));
    assert_eq!(act, Action::HaltMusic);
    assert_eq!(commit(st, &act, true), MusicState::Stopped);
}

#[test]
fn inaudible_volume_request_is_a_stop_not_silence() {
    assert_eq!(bgm_volume_command(1, false), Command::StopMusic);
    assert_eq!(bgm_volume_command(0, false), Command::StopMusic);
    assert_eq!(bgm_volume_command(-5, false), Command::StopMusic);
    assert_eq!(bgm_volume_command(2, false), Command::SetMusicGain { gain: 2 });

    let st = MusicState::Playing { gain: 5000 };
    let act = plan(&st, bgm_volume_command(1, false));
    assert_eq!(act, Action::HaltMusic);
    assert_eq!(commit(st, &act, true), MusicState::Stopped);
}

#[test]
fn stop_and_volume_requests_enqueue_their_commands() {
    let (tx, rx) = audio_channel();
    assert_eq!(bgm_stop(&tx), Ok(()));
    assert_eq!(bgm_volume(&tx, 5000, false), Ok(()));
    assert_eq!(bgm_volume(&tx, 1, false), Ok(()));
    assert_eq!(rx.poll(), ChannelPoll::Got(Command::StopMusic));
    assert_eq!(rx.poll(), ChannelPoll::Got(Command::SetMusicGain { gain: 5000 }));
    assert_eq!(rx.poll(), ChannelPoll::Got(Command::StopMusic));
    assert_eq!(rx.poll(), ChannelPoll::Nothing);
}

#[test]
fn volume_while_stopped_is_ignored() {
    let st = MusicState::Stopped;
    let act = plan(&st, Command::SetMusicGain { gain: 3000 });
    assert_eq!(act, Action::Ignore);
    assert_eq!(commit(st, &act, true), MusicState::Stopped);
}

#[test]
fn unknown_effect_is_silent_noop_and_worker_continues() {
    let (tx, rx) = audio_channel();
    assert_eq!(play_sfx(&tx, "warp".to_string(), 9000, false), Ok(()));
    assert_eq!(play_sfx(&tx, "poison".to_string(), 9000, false), Ok(()));

    let mut st = MusicState::Playing { gain: 2000 };
    let c1 = rx.recv().unwrap();
    let a1 = plan(&st, c1);
    assert_eq!(a1, Action::Ignore);
    st = commit(st, &a1, true);
    assert_eq!(st, MusicState::Playing { gain: 2000 });

    let c2 = rx.recv().unwrap();
    let a2 = plan(&st, c2);
    assert_eq!(a2, Action::AppendAsset { name: "poison".to_string(), amp: 9000 });
    st = commit(st, &a2, true);
    assert_eq!(st, MusicState::Playing { gain: 2000 });
}

#[test]
fn synth_effect_is_planned_procedurally() {
    let st = MusicState::Stopped;
    let act = plan(&st, Command::PlayEffect { name: "enemy_pickup".to_string(), gain: 12000 });
    assert_eq!(act, Action::AppendSynth { amp: 12000 });
}

#[test]
fn worker_amp_is_capped_at_twice_unity() {
    let st = MusicState::Stopped;
    let act = plan(&st, Command::PlayEffect { name: "enemy_pickup".to_string(), gain: 30000 });
    assert_eq!(act, Action::AppendSynth { amp: 20000 });
}

#[test]
fn failed_music_start_leaves_slot_absent() {
    let st = MusicState::Stopped;
    let act = plan(&st, Command::StartMusic { gain: 7000 });
    assert_eq!(act, Action::CreateMusicSink { gain: 7000 });
    assert_eq!(commit(st, &act, false), MusicState::Stopped);
}

#[test]
fn send_after_worker_death_fails_on_every_entry_point() {
    let (tx, rx) = audio_channel();
    drop(rx);
    assert_eq!(play_sfx(&tx, "ui".to_string(), 9000, false), Err(AudioError::ChannelClosed));
    assert_eq!(bgm_play(&tx, 9000, false), Err(AudioError::ChannelClosed));
    assert_eq!(bgm_stop(&tx), Err(AudioError::ChannelClosed));
    assert_eq!(bgm_volume(&tx, 9000, false), Err(AudioError::ChannelClosed));
}

#[test]
fn muted_request_still_succeeds_after_worker_death() {
    let (tx, rx) = audio_channel();
    drop(rx);
    assert_eq!(play_sfx(&tx, "ui".to_string(), 9000, true), Ok(()));
    assert_eq!(bgm_play(&tx, 0, false), Ok(()));
}

#[test]
fn commands_from_one_producer_arrive_in_order() {
    let (tx, rx) = audio_channel();
    for name in ["ui", "eat", "boost"] {
        assert_eq!(play_sfx(&tx, name.to_string(), 9000, false), Ok(()));
    }
    for name in ["ui", "eat", "boost"] {
        assert_eq!(
            rx.recv(),
            Some(Command::PlayEffect { name: name.to_string(), gain: 9000 })
        );
    }
    assert_eq!(rx.poll(), ChannelPoll::Nothing);
}

#[test]
fn no_command_from_any_producer_is_lost() {
    let (tx1, rx) = audio_channel();
    let tx2 = tx1.duplicate();
    let tx3 = tx2.duplicate();
    for tx in [&tx1, &tx2, &tx3] {
        for name in ["ui", "eat", "dash"] {
            assert_eq!(play_sfx(tx, name.to_string(), 9000, false), Ok(()));
        }
    }
    let mut got = 0;
    while let ChannelPoll::Got(c) = rx.poll() {
        assert!(matches!(c, Command::PlayEffect { .. }));
        got += 1;
    }
    assert_eq!(got, 9);
}

#[test]
fn channel_closes_once_every_producer_is_dropped() {
    let (tx1, rx) = audio_channel();
    let tx2 = tx1.duplicate();
    drop(tx1);
    assert_eq!(rx.poll(), ChannelPoll::Nothing);
    drop(tx2);
    assert_eq!(rx.poll(), ChannelPoll::Closed);
    assert_eq!(rx.recv(), None);
}
