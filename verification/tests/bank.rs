//! The asset bank: the closed name set and the shape of the payloads.

use snake_audio::assets::bgm_bytes;
use snake_audio::assets::known_sfx;
use snake_audio::assets::sfx_bytes;

#[test]
fn every_stored_effect_name_resolves() {
    for name in ["ui", "eat", "boost", "dash", "shield", "poison", "death"] {
        assert!(known_sfx(name), "{name} should be known");
        assert!(sfx_bytes(name).is_some(), "{name} should have a payload");
    }
}

#[test]
fn unknown_names_resolve_to_nothing() {
    for name in ["", "warp", "UI", "bgm", "enemy_pickup"] {
        assert!(!known_sfx(name));
        assert!(sfx_bytes(name).is_none());
    }
}

#[test]
fn payloads_are_wav_containers() {
    let ui = sfx_bytes("ui").unwrap();
    assert_eq!(ui.len(), 48);
    assert_eq!(&ui[0..4], b"RIFF");
    assert_eq!(&ui[8..12], b"WAVE");
    let bgm = bgm_bytes();
    assert_eq!(bgm.len(), 48);
    assert_eq!(&bgm[0..4], b"RIFF");
}

#[test]
fn each_name_has_its_own_payload() {
    let names = ["ui", "eat", "boost", "dash", "shield", "poison", "death"];
    let payloads: Vec<Vec<u8>> = names.iter().map(|n| sfx_bytes(n).unwrap()).collect();
    for i in 0..payloads.len() {
        for j in 0..payloads.len() {
            if i != j {
                assert_ne!(payloads[i], payloads[j]);
            }
        }
        assert_ne!(payloads[i], bgm_bytes());
    }
}

#[test]
fn lookup_is_stable() {
    assert_eq!(sfx_bytes("eat"), sfx_bytes("eat"));
    assert_eq!(bgm_bytes(), bgm_bytes());
}
