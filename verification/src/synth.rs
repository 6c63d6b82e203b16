//! The procedural synthesizer: the short "rival pickup" cue, built
//! entirely from closed-form formulas, with no stored asset.
//!
//! The cue is 140 ms of mono audio at 48 kHz (6720 samples).  Each
//! sample is, in order: a squared linear attack/decay envelope, a sine
//! chirp sweeping from 820 Hz down to 260 Hz, a 72 Hz sub click ramped
//! out over the first 30 ms, a rational soft clip on the chirp for a
//! digital edge, and a weighted mix of the two voices under the
//! envelope.  Everything is fixed-point integer arithmetic: amplitudes
//! are Q15 (32768 = full scale), angles are Q16 turns (65536 = one
//! cycle), and the sine and the soft clip are rational approximations,
//! so the output is a pure function of the sample index: the exact
//! value of every sample is pinned by [`sample_q`].

use vstd::prelude::*;

use vstd::arithmetic::div_mod::lemma_div_by_multiple;
use vstd::arithmetic::div_mod::lemma_div_is_ordered;
use vstd::arithmetic::div_mod::lemma_div_pos_is_pos;
use vstd::arithmetic::div_mod::lemma_mod_bound;
use vstd::arithmetic::mul::lemma_mul_by_zero_is_zero;
use vstd::arithmetic::mul::lemma_mul_upper_bound;

verus! {

/// Samples per second of the cue.
pub const SAMPLE_RATE: u32 = 48000;

/// Length of the cue in samples: 140 ms at 48 kHz.
pub const CUE_LEN: usize = 6720;

/// Full scale in Q15.
pub const AMP_ONE: i32 = 32768;

/// For nonnegative `x` and positive `d`, `x / d` lies in `[0, b]`
/// whenever `x <= b * d`.
proof fn lemma_div_le(x: int, b: int, d: int)
    requires
        0 <= x,
        0 <= b,
        0 < d,
        x <= b * d,
    ensures
        0 <= x / d <= b,
{
    lemma_div_pos_is_pos(x, d);
    lemma_div_is_ordered(x, b * d, d);
    lemma_div_by_multiple(b, d);
}

/// The squared attack/decay envelope, Q15: a linear rise over the
/// first 480 samples (10 ms), a linear fall over the remaining 6240,
/// then squared for a non-linear taper.
pub open spec fn env2_q(i: int) -> int {
    let e = if i < 480 {
        i * 32768 / 480
    } else {
        (6720 - i) * 32768 / 6240
    };
    e * e / 32768
}

/// Magnitude of the half-turn rational sine at half-turn position
/// `h` in `[0, 32768)`, Q15.
pub open spec fn half_sine_q(h: int) -> int {
    16 * 32768 * (h * (32768 - h)) / (5368709120 - 4 * (h * (32768 - h)))
}

/// Sine magnitude at a Q16-turn angle.
pub open spec fn sine_mag_q(ph: int) -> int {
    half_sine_q(ph % 32768)
}

/// Whether the sine at a Q16-turn angle is in its nonnegative half.
pub open spec fn sine_pos(ph: int) -> bool {
    ph % 65536 < 32768
}

/// Chirp angle at sample `i`, Q16 turns: frequency sweeps linearly
/// from 820 Hz down to 260 Hz across the cue, so the accumulated
/// angle is `(820 - 4000 * t) * t` turns at `t = i / 48000` seconds.
pub open spec fn chirp_phase(i: int) -> int {
    i * (39360000 - 4000 * i) * 65536 / 2304000000
}

/// Sub-click angle at sample `i`, Q16 turns of a fixed 72 Hz sine.
pub open spec fn sub_phase(i: int) -> int {
    4718592 * i / 48000
}

/// The soft clip: the chirp is boosted by 1.35 and shaped by the
/// rational tanh approximation `z (27 + z^2) / (27 + 9 z^2)`, for a
/// bounded "digital" edge.  Input and output are Q15 magnitudes.
pub open spec fn edge_mag_q(m: int) -> int {
    let z = m * 135 / 100;
    z * (28991029248 + z * z) / (28991029248 + 9 * (z * z))
}

/// Magnitude of the sub click at sample `i`, Q15: a 72 Hz sine ramped
/// linearly to zero across the first 1440 samples (30 ms), silent
/// afterwards.
pub open spec fn sub_mag_q(i: int) -> int {
    if i < 1440 {
        half_sine_q(sub_phase(i) % 32768) * ((1440 - i) * 32768 / 1440) / 32768
    } else {
        0
    }
}

/// A magnitude with its sign applied.
pub open spec fn signed_mag(pos: bool, mag: int) -> int {
    if pos {
        mag
    } else {
        -mag
    }
}

/// The pre-envelope mix at sample `i`: the soft-clipped chirp at
/// weight 0.75 plus the sub click at weight 0.45, in Q15 scaled by
/// 1000.
pub open spec fn mix_q(i: int) -> int {
    signed_mag(sine_pos(chirp_phase(i)), 750 * edge_mag_q(sine_mag_q(chirp_phase(i)))) + signed_mag(
        sine_pos(sub_phase(i)),
        450 * sub_mag_q(i),
    )
}

/// The exact Q15 value of sample `i` of the cue.
pub open spec fn sample_q(i: int) -> int {
    let m = mix_q(i);
    if m >= 0 {
        m * env2_q(i) / 32768000
    } else {
        -((-m) * env2_q(i) / 32768000)
    }
}

/// The half-sine magnitude is a Q15 value in `[0, 32768]`.
pub proof fn lemma_half_sine_bounds(h: int)
    requires
        0 <= h < 32768,
    ensures
        0 <= h * (32768 - h) <= 268435456,
        0 <= half_sine_q(h) <= 32768,
{
    assert(0 <= h * (32768 - h) && h * (32768 - h) <= 268435456 && 16 * 32768 * (h * (32768 - h))
        <= 32768 * (5368709120 - 4 * (h * (32768 - h)))) by (nonlinear_arith)
        requires
            0 <= h < 32768,
    ;
    lemma_div_le(16 * 32768 * (h * (32768 - h)), 32768, 5368709120 - 4 * (h * (32768 - h)));
}

/// The sine magnitude is a Q15 value in `[0, 32768]` at any angle.
pub proof fn lemma_sine_mag_bounds(ph: int)
    ensures
        0 <= sine_mag_q(ph) <= 32768,
{
    lemma_mod_bound(ph, 32768);
    lemma_half_sine_bounds(ph % 32768);
}

/// The soft-clipped chirp keeps a bounded magnitude: at most 1.35
/// full scale.
pub proof fn lemma_edge_bounds(m: int)
    requires
        0 <= m <= 32768,
    ensures
        0 <= edge_mag_q(m) <= 44237,
{
    lemma_div_le(m * 135, 44237, 100);
    let z = m * 135 / 100;
    let zz = z * z;
    assert(0 <= zz && z * (28991029248 + zz) <= 44237 * (28991029248 + 9 * zz))
        by (nonlinear_arith)
        requires
            0 <= z <= 44237,
            zz == z * z,
    ;
    lemma_div_le(z * (28991029248 + zz), 44237, 28991029248 + 9 * zz);
}

/// The sub click's magnitude stays within Q15 full scale.
pub proof fn lemma_sub_mag_bounds(i: int)
    requires
        0 <= i,
    ensures
        0 <= sub_mag_q(i) <= 32768,
{
    if i < 1440 {
        let s = half_sine_q(sub_phase(i) % 32768);
        lemma_mod_bound(sub_phase(i), 32768);
        lemma_half_sine_bounds(sub_phase(i) % 32768);
        let ramp = (1440 - i) * 32768 / 1440;
        lemma_div_le((1440 - i) * 32768, 32768, 1440);
        lemma_mul_upper_bound(s, 32768, ramp, 32768);
        lemma_div_le(s * ramp, 32768, 32768);
    }
}

/// The envelope's square is a Q15 value in `[0, 32768]` over the cue.
pub proof fn lemma_env2_bounds(i: int)
    requires
        0 <= i < 6720,
    ensures
        0 <= env2_q(i) <= 32768,
{
    let e = if i < 480 {
        i * 32768 / 480
    } else {
        (6720 - i) * 32768 / 6240
    };
    if i < 480 {
        lemma_div_le(i * 32768, 32768, 480);
    } else {
        lemma_div_le((6720 - i) * 32768, 32768, 6240);
    }
    lemma_mul_upper_bound(e, 32768, e, 32768);
    lemma_div_le(e * e, 32768, 32768);
}

/// Over the final seven percent of the cue the envelope has collapsed:
/// every sample there is within 300/32768 of silence (the cue decays
/// toward zero without being forced to reach it exactly).
pub proof fn lemma_tail_decays(i: int)
    requires
        6250 <= i < 6720,
    ensures
        -300 <= sample_q(i) <= 300,
{
    let e = (6720 - i) * 32768 / 6240;
    lemma_div_le((6720 - i) * 32768, 2469, 6240);
    lemma_mul_upper_bound(e, 2469, e, 2469);
    lemma_div_le(e * e, 187, 32768);
    let e2 = env2_q(i);
    lemma_sine_mag_bounds(chirp_phase(i));
    lemma_edge_bounds(sine_mag_q(chirp_phase(i)));
    lemma_sub_mag_bounds(i);
    let m = mix_q(i);
    assert(-47923350 <= m <= 47923350);
    if m >= 0 {
        lemma_mul_upper_bound(m, 47923350, e2, 187);
        lemma_div_le(m * e2, 300, 32768000);
    } else {
        lemma_mul_upper_bound(-m, 47923350, e2, 187);
        lemma_div_le((-m) * e2, 300, 32768000);
    }
}

/// The cue is deterministic: it is one fixed sequence of samples, so
/// any two renderings are identical.
pub proof fn lemma_cue_deterministic(a: Seq<i32>, b: Seq<i32>)
    requires
        a.len() == CUE_LEN,
        b.len() == CUE_LEN,
        forall|i: int| 0 <= i < CUE_LEN ==> a[i] == sample_q(i),
        forall|i: int| 0 <= i < CUE_LEN ==> b[i] == sample_q(i),
    ensures
        a == b,
{
    assert forall|i: int| 0 <= i < a.len() implies a[i] == b[i] by {
        assert(a[i] == sample_q(i));
        assert(b[i] == sample_q(i));
    }
    assert(a =~= b);
}

/// The half-sine magnitude at half-turn position `h`.
fn half_sine(h: u64) -> (r: u64)
    requires
        h < 32768,
    ensures
        r == half_sine_q(h as int),
        r <= 32768,
{
    proof {
        lemma_half_sine_bounds(h as int);
    }
    let hb: u64 = h * (32768 - h);
    assert(524288 * hb <= 140737488355328) by (nonlinear_arith)
        requires
            hb <= 268435456,
    ;
    let num: u64 = 524288 * hb;
    let den: u64 = 5368709120 - 4 * hb;
    num / den
}

/// Sign and magnitude of the sine at a Q16-turn angle.
fn sine_parts(ph: u64) -> (r: (bool, u64))
    ensures
        r.0 == sine_pos(ph as int),
        r.1 == sine_mag_q(ph as int),
        r.1 <= 32768,
{
    let h: u64 = ph % 32768;
    let mag = half_sine(h);
    (ph % 65536 < 32768, mag)
}

/// The squared envelope at sample `i`.
fn envelope2(i: u64) -> (r: u64)
    requires
        i < 6720,
    ensures
        r == env2_q(i as int),
        r <= 32768,
{
    proof {
        lemma_env2_bounds(i as int);
    }
    let e: u64 = if i < 480 {
        i * 32768 / 480
    } else {
        (6720 - i) * 32768 / 6240
    };
    proof {
        if i < 480 {
            lemma_div_le(i as int * 32768, 32768, 480);
        } else {
            lemma_div_le((6720 - i as int) * 32768, 32768, 6240);
        }
        lemma_mul_upper_bound(e as int, 32768, e as int, 32768);
    }
    e * e / 32768
}

/// The chirp angle at sample `i`.
fn chirp_ph(i: u64) -> (r: u64)
    requires
        i < 6720,
    ensures
        r == chirp_phase(i as int),
{
    let f: u64 = 39360000 - 4000 * i;
    proof {
        lemma_mul_upper_bound(i as int, 6720, f as int, 39360000);
    }
    let num: u64 = i * f * 65536;
    num / 2304000000
}

/// The sub-click angle at sample `i`.
fn sub_ph(i: u64) -> (r: u64)
    requires
        i < 6720,
    ensures
        r == sub_phase(i as int),
{
    4718592 * i / 48000
}

/// The soft-clipped chirp magnitude.
fn edge_mag(m: u64) -> (r: u64)
    requires
        m <= 32768,
    ensures
        r == edge_mag_q(m as int),
        r <= 44237,
{
    proof {
        lemma_edge_bounds(m as int);
    }
    let z: u64 = m * 135 / 100;
    proof {
        lemma_div_le(m as int * 135, 44237, 100);
        lemma_mul_upper_bound(z as int, 44237, z as int, 44237);
    }
    let zz: u64 = z * z;
    proof {
        lemma_mul_upper_bound(z as int, 44237, 28991029248 + zz as int, 28991029248 + 1957111369int);
    }
    let num: u64 = z * (28991029248 + zz);
    let den: u64 = 28991029248 + 9 * zz;
    num / den
}

/// One sample of the cue.
fn sample_at(i: u64) -> (r: i32)
    requires
        i < 6720,
    ensures
        r as int == sample_q(i as int),
{
    let e = envelope2(i);
    let cph = chirp_ph(i);
    let (cpos, cmag) = sine_parts(cph);
    let emag = edge_mag(cmag);
    let sph = sub_ph(i);
    let (spos, smag0) = sine_parts(sph);
    let smag: u64 = if i < 1440 {
        let ramp: u64 = (1440 - i) * 32768 / 1440;
        proof {
            lemma_div_le((1440 - i as int) * 32768, 32768, 1440);
            lemma_mul_upper_bound(smag0 as int, 32768, ramp as int, 32768);
            lemma_div_le(smag0 as int * ramp as int, 32768, 32768);
        }
        smag0 * ramp / 32768
    } else {
        0
    };
    assert(smag == sub_mag_q(i as int));
    let a: u64 = 750 * emag;
    let b: u64 = 450 * smag;
    let (pos, mm): (bool, u64) = if cpos == spos {
        (cpos, a + b)
    } else if a >= b {
        (cpos, a - b)
    } else {
        (spos, b - a)
    };
    proof {
        lemma_mul_upper_bound(mm as int, 47923350, e as int, 32768);
        lemma_div_le(mm as int * e as int, 47924, 32768000);
    }
    let s: u64 = mm * e / 32768000;
    proof {
        let m = mix_q(i as int);
        assert(m == signed_mag(cpos, a as int) + signed_mag(spos, b as int));
        if pos {
            assert(m == mm);
        } else {
            assert(m == -(mm as int));
            if mm == 0 {
                assert(m == 0);
                lemma_mul_by_zero_is_zero(e as int);
                lemma_mul_by_zero_is_zero(env2_q(i as int));
                lemma_div_le(0, 0, 32768000);
                assert(s == 0);
                assert(sample_q(i as int) == 0);
            }
        }
    }
    if pos {
        s as i32
    } else {
        0 - (s as i32)
    }
}

/// Render the whole cue: 6720 mono Q15 samples at 48 kHz, each one
/// exactly the value [`sample_q`] assigns to its index.
pub fn enemy_pickup_samples() -> (out: Vec<i32>)
    ensures
        out@.len() == CUE_LEN,
        forall|i: int| 0 <= i < CUE_LEN ==> out@[i] == sample_q(i),
{
    let mut out: Vec<i32> = Vec::new();
    let mut i: usize = 0;
    while i < CUE_LEN
        invariant
            i <= CUE_LEN,
            out@.len() == i,
            forall|j: int| 0 <= j < i ==> out@[j] == sample_q(j),
        decreases CUE_LEN - i,
    {
        let s = sample_at(i as u64);
        out.push(s);
        i = i + 1;
    }
    out
}

} // verus!
