//! Message-driven audio engine for a game client.
//!
//! Callers enqueue playback commands (one-shot effects, a looping music
//! track) through a thin facade; a single worker owns the output device
//! and consumes the commands sequentially.  Gains are linear amplitude
//! factors in fixed point: ten-thousandths of unity (10_000 = 1.0).

use vstd::prelude::*;

pub mod assets;
pub mod channel;
pub mod command;
pub mod facade;
pub mod synth;
pub mod worker;

verus! {

} // verus!
