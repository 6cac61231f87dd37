//! A sine-wave oscillator core for a callback-driven audio output stream.
//!
//! The library is the verified heart of a small native-audio binding: a
//! shared parameter block (frequency, gain, sample rate and the derived
//! phase increment), a phase-accumulating sample generator that fills
//! audio buffers one frame at a time, and the start/pause/stop lifecycle
//! decisions of the controller that owns the stream.
//!
//! All quantities are exact fixed-point values. Angles are measured in
//! units of `1 / TURN` of a full turn, so the constant [`params::TURN`]
//! plays the role of 2π; frequencies are in millihertz and the gain is a
//! fraction of [`params::GAIN_ONE`]. Turning a generated [`wave::Sample`]
//! into an amplitude (gain times the sine of the phase) is left to the
//! unverified rendering layer, which owns all floating-point work.

pub mod lifecycle;
pub mod params;
pub mod wave;

pub use lifecycle::{ActiveStream, AudioSineWaveGen, ChannelLayout, StreamConfig};
pub use params::{SineParam, GAIN_ONE, MAX_DELTA, TURN};
pub use wave::{CallbackResult, Sample, SineWave, StereoSample};
