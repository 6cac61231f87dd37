//! The shared parameter block of the oscillator.
//!
//! A [`SineParam`] holds the frequency, the gain, the sample rate and the
//! derived phase increment (`delta`). The controller writes these fields
//! and the audio thread reads them; making that sharing atomic is the
//! embedding layer's concern, while this module carries the arithmetic
//! that relates the fields and the invariant that `delta` always agrees
//! with the most recently committed frequency/sample-rate pair.

use vstd::arithmetic::div_mod::{lemma_div_is_ordered, lemma_div_is_ordered_by_denominator};
use vstd::prelude::*;

verus! {

/// Phase units per full turn: the fixed-point stand-in for 2π.
pub const TURN: u64 = 0x1_0000_0000;

/// Gain units per unit amplitude: a gain of `GAIN_ONE` scales by one.
pub const GAIN_ONE: u32 = 0x1_0000;

/// Largest phase increment `delta_spec` can produce: a whole turn per
/// sample times the largest expressible frequency, at a one-hertz rate.
pub const MAX_DELTA: u64 = 0xFFFF_FFFF_0000_0000 / 1000;

/// The phase increment, in `1/TURN`ths of a turn per sample, that a
/// frequency (millihertz) and a sample rate (hertz) call for. This is
/// the exact analogue of 2π·frequency/sampleRate in radians: one turn
/// times frequency-in-hertz over rate, rounded down to a whole unit.
pub open spec fn delta_spec(frequency_mhz: u32, sample_rate_hz: u32) -> int
    recommends
        sample_rate_hz > 0,
{
    (TURN as int * frequency_mhz as int) / (1000 * sample_rate_hz as int)
}

/// The phase increment never exceeds `MAX_DELTA`, whatever the
/// frequency, as long as the sample rate is positive.
pub proof fn lemma_delta_spec_bound(frequency_mhz: u32, sample_rate_hz: u32)
    requires
        sample_rate_hz > 0,
    ensures
        0 <= delta_spec(frequency_mhz, sample_rate_hz) <= MAX_DELTA,
{
    let num = TURN as int * frequency_mhz as int;
    let den = 1000 * sample_rate_hz as int;
    lemma_div_is_ordered_by_denominator(num, 1000, den);
    lemma_div_is_ordered(num, TURN as int * u32::MAX as int, 1000);
}

/// The shared parameter block: frequency, gain, sample rate and the
/// derived phase increment. A sample rate of zero means the stream has
/// not yet reported its negotiated rate; until it does, the phase
/// increment stays zero rather than being computed from a zero divisor.
#[derive(Clone, Copy, Debug, PartialEq, Eq, Structural)]
pub struct SineParam {
    /// Oscillator frequency in millihertz.
    pub frequency_mhz: u32,
    /// Output gain in `1/GAIN_ONE`ths of unit amplitude.
    pub gain: u32,
    /// Sample rate in hertz; zero until the stream reports its rate.
    pub sample_rate_hz: u32,
    /// Derived phase increment per sample, in `1/TURN`ths of a turn.
    pub delta: u64,
}

impl SineParam {
    /// The block is well formed when `delta` agrees with the committed
    /// frequency/sample-rate pair, or is still zero while no rate is.
    pub open spec fn wf(self) -> bool {
        &&& self.sample_rate_hz > 0 ==> self.delta == delta_spec(
            self.frequency_mhz,
            self.sample_rate_hz,
        )
        &&& self.sample_rate_hz == 0 ==> self.delta == 0
        &&& self.delta <= MAX_DELTA
    }

    /// The starting block: 440 Hz at half gain, no rate committed yet.
    pub open spec fn default_spec() -> SineParam {
        SineParam { frequency_mhz: 440_000, gain: 0x8000, sample_rate_hz: 0, delta: 0 }
    }

    /// What committing a sample rate does: the rate is stored and the
    /// phase increment is recomputed from the current frequency.
    pub open spec fn set_sample_rate_spec(self, sample_rate_hz: u32) -> SineParam
        recommends
            sample_rate_hz > 0,
    {
        SineParam {
            sample_rate_hz,
            delta: delta_spec(self.frequency_mhz, sample_rate_hz) as u64,
            ..self
        }
    }

    /// What committing a frequency does: the frequency is stored, and
    /// the phase increment is recomputed from the current sample rate —
    /// unless no rate has been committed yet, in which case recomputing
    /// is deferred and `delta` is left as it is.
    pub open spec fn set_frequency_spec(self, frequency_mhz: u32) -> SineParam {
        if self.sample_rate_hz > 0 {
            SineParam {
                frequency_mhz,
                delta: delta_spec(frequency_mhz, self.sample_rate_hz) as u64,
                ..self
            }
        } else {
            SineParam { frequency_mhz, ..self }
        }
    }

    /// What committing a gain does: the gain is stored, nothing else.
    pub open spec fn set_gain_spec(self, gain: u32) -> SineParam {
        SineParam { gain, ..self }
    }

    /// Commit the sample rate the stream negotiated and derive the
    /// phase increment from it and the current frequency.
    pub fn set_sample_rate(&mut self, sample_rate_hz: u32)
        requires
            sample_rate_hz > 0,
        ensures
            *final(self) == old(self).set_sample_rate_spec(sample_rate_hz),
            final(self).wf(),
    {
        proof {
            lemma_delta_spec_bound(self.frequency_mhz, sample_rate_hz);
        }
        let frequency = self.frequency_mhz;
        let delta: u64 = (TURN * frequency as u64) / (1000 * sample_rate_hz as u64);
        self.delta = delta;
        self.sample_rate_hz = sample_rate_hz;
    }

    /// Commit a new frequency and derive the phase increment from it
    /// and the current sample rate; with no rate committed yet the
    /// derivation is deferred until `set_sample_rate` supplies one.
    pub fn set_frequency(&mut self, frequency_mhz: u32)
        ensures
            *final(self) == old(self).set_frequency_spec(frequency_mhz),
            old(self).wf() ==> final(self).wf(),
    {
        let sample_rate = self.sample_rate_hz;
        if sample_rate > 0 {
            proof {
                lemma_delta_spec_bound(frequency_mhz, sample_rate);
            }
            let delta: u64 = (TURN * frequency_mhz as u64) / (1000 * sample_rate as u64);
            self.delta = delta;
        }
        self.frequency_mhz = frequency_mhz;
    }

    /// Commit a new gain; no derived state depends on it.
    pub fn set_gain(&mut self, gain: u32)
        ensures
            *final(self) == old(self).set_gain_spec(gain),
            old(self).wf() ==> final(self).wf(),
    {
        self.gain = gain;
    }
}

impl Default for SineParam {
    /// The block every stream session starts from: 440 Hz, half gain,
    /// no sample rate committed and a zero phase increment.
    fn default() -> (p: SineParam)
        ensures
            p == SineParam::default_spec(),
            p.wf(),
    {
        SineParam { frequency_mhz: 440_000, gain: 0x8000, sample_rate_hz: 0, delta: 0 }
    }
}

/// After committing a sample rate and a frequency — in either order —
/// the stored phase increment is exactly the one the pair calls for,
/// `delta_spec(frequency, rate)`, the fixed-point 2π·frequency/rate.
pub proof fn lemma_delta_tracks_commits(p: SineParam, frequency_mhz: u32, sample_rate_hz: u32)
    requires
        sample_rate_hz > 0,
    ensures
        p.set_sample_rate_spec(sample_rate_hz).set_frequency_spec(frequency_mhz).delta
            == delta_spec(frequency_mhz, sample_rate_hz) as u64,
        p.set_frequency_spec(frequency_mhz).set_sample_rate_spec(sample_rate_hz).delta
            == delta_spec(frequency_mhz, sample_rate_hz) as u64,
{
}

} // verus!
