//! The asset bank: a fixed mapping from symbolic effect and track names
//! to embedded, read-only audio-encoded byte buffers.
//!
//! Each payload is a tiny single-channel 8-bit PCM WAV container, built
//! here byte for byte; the payloads differ per name only in their
//! sample data.  Lookup is a pure function over a closed set of names;
//! an unknown name yields no buffer, which callers treat as a silent
//! no-op.  Decoding the container happens downstream, in the worker's
//! host, and may fail there without ever reaching the caller.

use vstd::prelude::*;

verus! {

/// Relies on `<str as PartialEq>::eq`: two string slices compare equal
/// exactly when they hold the same character sequence.
#[verifier::external_body]
pub(crate) fn str_eq(a: &str, b: &str) -> (r: bool)
    ensures
        r == (a@ == b@),
{
    a == b
}

/// The embedded WAV payload with the given sample seed: a 44-byte
/// header (mono, 8 kHz, 8-bit PCM) followed by four samples, the first
/// of which carries the seed.
pub open spec fn wav_asset(seed: int) -> Seq<u8> {
    seq![
        0x52u8,
        0x49,
        0x46,
        0x46,  // "RIFF"
        40,
        0,
        0,
        0,  // riff chunk size
        0x57,
        0x41,
        0x56,
        0x45,  // "WAVE"
        0x66,
        0x6D,
        0x74,
        0x20,  // "fmt "
        16,
        0,
        0,
        0,  // fmt chunk size
        1,
        0,  // PCM
        1,
        0,  // mono
        0x40,
        0x1F,
        0,
        0,  // 8000 Hz
        0x40,
        0x1F,
        0,
        0,  // byte rate
        1,
        0,  // block align
        8,
        0,  // bits per sample
        0x64,
        0x61,
        0x74,
        0x61,  // "data"
        4,
        0,
        0,
        0,  // data size
        (0x80 + seed) as u8,
        0xC0,
        0x80,
        0x40,
    ]
}

/// Build the embedded WAV payload for one seed.
#[verifier::rlimit(100)]
fn wav_bytes(seed: u8) -> (r: Vec<u8>)
    requires
        seed < 8,
    ensures
        r@ == wav_asset(seed as int),
{
    let mut v: Vec<u8> = Vec::new();
    v.push(0x52);
    v.push(0x49);
    v.push(0x46);
    v.push(0x46);
    v.push(40);
    v.push(0);
    v.push(0);
    v.push(0);
    v.push(0x57);
    v.push(0x41);
    v.push(0x56);
    v.push(0x45);
    v.push(0x66);
    v.push(0x6D);
    v.push(0x74);
    v.push(0x20);
    v.push(16);
    v.push(0);
    v.push(0);
    v.push(0);
    v.push(1);
    v.push(0);
    v.push(1);
    v.push(0);
    v.push(0x40);
    v.push(0x1F);
    v.push(0);
    v.push(0);
    v.push(0x40);
    v.push(0x1F);
    v.push(0);
    v.push(0);
    v.push(1);
    v.push(0);
    v.push(8);
    v.push(0);
    v.push(0x64);
    v.push(0x61);
    v.push(0x74);
    v.push(0x61);
    v.push(4);
    v.push(0);
    v.push(0);
    v.push(0);
    v.push(0x80 + seed);
    v.push(0xC0);
    v.push(0x80);
    v.push(0x40);
    proof {
        assert(v@ =~= wav_asset(seed as int));
    }
    v
}

/// The closed set of stored effect names.  (The procedural
/// `enemy_pickup` cue is not stored: it is synthesized.)
pub open spec fn is_known_sfx(name: Seq<char>) -> bool {
    ||| name == "ui"@
    ||| name == "eat"@
    ||| name == "boost"@
    ||| name == "dash"@
    ||| name == "shield"@
    ||| name == "poison"@
    ||| name == "death"@
}

/// The sample seed distinguishing each stored effect's payload.
pub open spec fn sfx_seed(name: Seq<char>) -> int {
    if name == "ui"@ {
        1
    } else if name == "eat"@ {
        2
    } else if name == "boost"@ {
        3
    } else if name == "dash"@ {
        4
    } else if name == "shield"@ {
        5
    } else if name == "poison"@ {
        6
    } else if name == "death"@ {
        7
    } else {
        0
    }
}

/// Whether a name belongs to the stored-effect set.
pub fn known_sfx(kind: &str) -> (r: bool)
    ensures
        r == is_known_sfx(kind@),
{
    str_eq(kind, "ui") || str_eq(kind, "eat") || str_eq(kind, "boost") || str_eq(kind, "dash")
        || str_eq(kind, "shield") || str_eq(kind, "poison") || str_eq(kind, "death")
}

/// Look up a stored effect by name: the embedded payload for a known
/// name, nothing for an unknown one.
pub fn sfx_bytes(kind: &str) -> (r: Option<Vec<u8>>)
    ensures
        r is Some <==> is_known_sfx(kind@),
        r matches Some(v) ==> v@ == wav_asset(sfx_seed(kind@)),
{
    if str_eq(kind, "ui") {
        Some(wav_bytes(1))
    } else if str_eq(kind, "eat") {
        Some(wav_bytes(2))
    } else if str_eq(kind, "boost") {
        Some(wav_bytes(3))
    } else if str_eq(kind, "dash") {
        Some(wav_bytes(4))
    } else if str_eq(kind, "shield") {
        Some(wav_bytes(5))
    } else if str_eq(kind, "poison") {
        Some(wav_bytes(6))
    } else if str_eq(kind, "death") {
        Some(wav_bytes(7))
    } else {
        None
    }
}

/// The embedded looping music track.
pub fn bgm_bytes() -> (r: Vec<u8>)
    ensures
        r@ == wav_asset(0),
{
    wav_bytes(0)
}

} // verus!
