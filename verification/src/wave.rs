//! The oscillator: a phase accumulator that produces one sample per step.
//!
//! Each step reads the phase increment and the gain from the shared
//! parameter block, emits a [`Sample`] carrying the phase at which the
//! sine is to be evaluated together with that gain, then advances the
//! phase and wraps it by repeatedly subtracting a full turn. The stream
//! of samples is infinite and stateful: the phase is never reset.
//!
//! Wraparound is by the strict comparison `phase > TURN`: a phase of
//! exactly one full turn is deliberately left in place rather than
//! brought back to zero, so the accumulator settles in `0 ..= TURN`.

use crate::params::{SineParam, TURN};
use vstd::prelude::*;

verus! {

/// One wraparound correction: subtract a full turn while the phase
/// strictly exceeds one. A phase of exactly `TURN` stays as it is.
pub open spec fn wrap_down(phase: nat) -> nat
    decreases phase,
{
    if phase > TURN {
        wrap_down((phase - TURN) as nat)
    } else {
        phase
    }
}

/// The phase after `i` steps from `start`, each step adding `delta`
/// and then wrapping: the iterated form of `start + i·delta` modulo a
/// turn, under the strict-comparison wraparound policy.
pub open spec fn phase_at(start: nat, delta: nat, i: nat) -> nat
    decreases i,
{
    if i == 0 {
        start
    } else {
        wrap_down(phase_at(start, delta, (i - 1) as nat) + delta)
    }
}

/// Wraparound never leaves the phase above one full turn, and a phase
/// already at or below a full turn is left untouched.
pub proof fn lemma_wrap_down_bounds(phase: nat)
    ensures
        wrap_down(phase) <= TURN,
        phase <= TURN ==> wrap_down(phase) == phase,
        wrap_down(phase) <= phase,
    decreases phase,
{
    if phase > TURN {
        lemma_wrap_down_bounds((phase - TURN) as nat);
    }
}

/// Wrapping before or after adding makes no difference: correcting an
/// already-corrected phase commutes with advancing it.
pub proof fn lemma_wrap_down_add(a: nat, d: nat)
    ensures
        wrap_down(wrap_down(a) + d) == wrap_down(a + d),
    decreases a,
{
    if a > TURN {
        lemma_wrap_down_add((a - TURN) as nat, d);
    }
}

/// The closed form of the phase history: starting at or below a full
/// turn, the phase after `i` steps is `start + i·delta`, wrapped. This
/// is the per-index law behind the generated sample stream.
pub proof fn lemma_phase_at_closed_form(start: nat, delta: nat, i: nat)
    requires
        start <= TURN,
    ensures
        phase_at(start, delta, i) == wrap_down(start + i * delta),
    decreases i,
{
    if i == 0 {
        lemma_wrap_down_bounds(start);
        assert(i * delta == 0) by (nonlinear_arith)
            requires
                i == 0,
        ;
    } else {
        let j = (i - 1) as nat;
        lemma_phase_at_closed_form(start, delta, j);
        lemma_wrap_down_add(start + j * delta, delta);
        assert(j * delta + delta == i * delta) by (nonlinear_arith)
            requires
                j == i - 1,
        ;
    }
}

/// One generated sample: the phase (in `1/TURN`ths of a turn) at which
/// the sine is evaluated and the gain (in `1/GAIN_ONE`ths) scaling it.
/// The amplitude it denotes is the gain times the sine of the phase;
/// with a gain of zero it denotes silence whatever the phase holds.
#[derive(Clone, Copy, Debug, PartialEq, Eq, Structural)]
pub struct Sample {
    /// Phase at which this sample is taken.
    pub phase: u64,
    /// Gain scaling this sample.
    pub gain: u32,
}

/// One stereo frame: the same generated sample on both channels.
#[derive(Clone, Copy, Debug, PartialEq, Eq, Structural)]
pub struct StereoSample {
    /// Left channel.
    pub left: Sample,
    /// Right channel.
    pub right: Sample,
}

/// What a buffer-fill callback reports to the audio subsystem. The
/// generator runs until the stream is stopped from outside, so it only
/// ever answers `Continue`.
#[derive(Clone, Copy, Debug, PartialEq, Eq, Structural)]
pub enum CallbackResult {
    /// Keep streaming: more samples will be produced on the next call.
    Continue,
    /// Stop streaming; never produced by this generator.
    Stop,
}

/// The oscillator state: a single phase accumulator.
#[derive(Clone, Copy, Debug, PartialEq, Eq, Structural)]
pub struct SineWave {
    /// Current phase, in `1/TURN`ths of a turn; stays in `0 ..= TURN`.
    pub phase: u64,
}

impl SineWave {
    /// The accumulator is well formed while it sits at or below one
    /// full turn — which, after wraparound, it always does.
    pub open spec fn wf(self) -> bool {
        self.phase <= TURN
    }

    /// A fresh oscillator, starting at phase zero.
    pub fn new() -> (w: SineWave)
        ensures
            w.phase == 0,
            w.wf(),
    {
        SineWave { phase: 0 }
    }

    /// Produce the next sample: emit the current phase with the gain
    /// read from the parameter block, then advance the phase by the
    /// block's increment and wrap it back to at most one full turn.
    pub fn next(&mut self, param: &SineParam) -> (sample: Sample)
        requires
            old(self).wf(),
            param.wf(),
        ensures
            sample.phase == old(self).phase,
            sample.gain == param.gain,
            final(self).phase == wrap_down((old(self).phase + param.delta) as nat),
            final(self).wf(),
    {
        let sample = Sample { phase: self.phase, gain: param.gain };
        self.phase = self.phase + param.delta;
        let ghost advanced: nat = self.phase as nat;
        while self.phase > TURN
            invariant
                wrap_down(self.phase as nat) == wrap_down(advanced),
            decreases self.phase,
        {
            self.phase = self.phase - TURN;
        }
        proof {
            lemma_wrap_down_bounds(self.phase as nat);
        }
        sample
    }

    /// Fill a mono buffer: overwrite every slot with the next sample
    /// and tell the audio subsystem to continue. Slot `i` carries the
    /// phase after `i` steps from the entry phase, with the block's
    /// gain, and the accumulator ends one step past the last slot.
    pub fn on_audio_ready(&mut self, param: &SineParam, frames: &mut Vec<Sample>) -> (r:
        CallbackResult)
        requires
            old(self).wf(),
            param.wf(),
        ensures
            r == CallbackResult::Continue,
            final(frames)@.len() == old(frames)@.len(),
            forall|i: int|
                0 <= i < old(frames)@.len() ==> (#[trigger] final(frames)@[i]) == (Sample {
                    phase: phase_at(old(self).phase as nat, param.delta as nat, i as nat) as u64,
                    gain: param.gain,
                }),
            final(self).phase == phase_at(
                old(self).phase as nat,
                param.delta as nat,
                old(frames)@.len() as nat,
            ),
            final(self).wf(),
    {
        let ghost start: nat = self.phase as nat;
        let ghost delta: nat = param.delta as nat;
        let n = frames.len();
        let mut out: Vec<Sample> = Vec::new();
        let mut k: usize = 0;
        while k < n
            invariant
                k <= n,
                start <= TURN,
                param.wf(),
                delta == param.delta as nat,
                self.wf(),
                self.phase == phase_at(start, delta, k as nat),
                out@.len() == k as int,
                forall|i: int|
                    0 <= i < k ==> (#[trigger] out@[i]) == (Sample {
                        phase: phase_at(start, delta, i as nat) as u64,
                        gain: param.gain,
                    }),
            decreases n - k,
        {
            proof {
                lemma_phase_bound(start, delta, k as nat);
            }
            let sample = self.next(param);
            out.push(sample);
            k = k + 1;
        }
        *frames = out;
        CallbackResult::Continue
    }

    /// Fill a stereo buffer: the one generated sample of each step is
    /// duplicated into both channels, so every frame's left and right
    /// channels are equal and both match what the mono fill would have
    /// produced from the same phase history.
    pub fn on_audio_ready_stereo(&mut self, param: &SineParam, frames: &mut Vec<StereoSample>) -> (r:
        CallbackResult)
        requires
            old(self).wf(),
            param.wf(),
        ensures
            r == CallbackResult::Continue,
            final(frames)@.len() == old(frames)@.len(),
            forall|i: int|
                0 <= i < old(frames)@.len() ==> (#[trigger] final(frames)@[i]).left == (final(
                    frames
                )@[i]).right,
            forall|i: int|
                0 <= i < old(frames)@.len() ==> (#[trigger] final(frames)@[i]).left == (Sample {
                    phase: phase_at(old(self).phase as nat, param.delta as nat, i as nat) as u64,
                    gain: param.gain,
                }),
            final(self).phase == phase_at(
                old(self).phase as nat,
                param.delta as nat,
                old(frames)@.len() as nat,
            ),
            final(self).wf(),
    {
        let ghost start: nat = self.phase as nat;
        let ghost delta: nat = param.delta as nat;
        let n = frames.len();
        let mut out: Vec<StereoSample> = Vec::new();
        let mut k: usize = 0;
        while k < n
            invariant
                k <= n,
                start <= TURN,
                param.wf(),
                delta == param.delta as nat,
                self.wf(),
                self.phase == phase_at(start, delta, k as nat),
                out@.len() == k as int,
                forall|i: int|
                    0 <= i < k ==> (#[trigger] out@[i]).left == out@[i].right,
                forall|i: int|
                    0 <= i < k ==> (#[trigger] out@[i]).left == (Sample {
                        phase: phase_at(start, delta, i as nat) as u64,
                        gain: param.gain,
                    }),
            decreases n - k,
        {
            proof {
                lemma_phase_bound(start, delta, k as nat);
            }
            let sample = self.next(param);
            out.push(StereoSample { left: sample, right: sample });
            k = k + 1;
        }
        *frames = out;
        CallbackResult::Continue
    }
}

/// Every phase in a history that starts at or below a full turn stays
/// at or below a full turn: the wraparound invariant of the stream.
pub proof fn lemma_phase_bound(start: nat, delta: nat, i: nat)
    requires
        start <= TURN,
    ensures
        phase_at(start, delta, i) <= TURN,
    decreases i,
{
    if i > 0 {
        lemma_phase_bound(start, delta, (i - 1) as nat);
        lemma_wrap_down_bounds(phase_at(start, delta, (i - 1) as nat) + delta);
    }
}

} // verus!
