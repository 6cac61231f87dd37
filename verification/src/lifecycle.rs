//! The controller that owns a stream session: start, pause and stop.
//!
//! The platform's audio stream itself (device negotiation, the real-time
//! callback thread) lives outside this library; what is verified here is
//! every decision the controller makes. [`AudioSineWaveGen::try_start`]
//! refuses to build a second session while one exists, commits the
//! negotiated sample rate into a fresh parameter block and binds a fresh
//! oscillator to it; pausing and stopping are silent no-ops without an
//! active session, and pausing never touches the oscillator, so resuming
//! picks the phase up exactly where pausing left it.

use crate::params::SineParam;
use crate::wave::SineWave;
use vstd::prelude::*;

verus! {

/// Channel layout of the output stream: how many times the one
/// generated sample of each step is written into a frame.
#[derive(Clone, Copy, Debug, PartialEq, Eq, Structural)]
pub enum ChannelLayout {
    /// One sample per frame.
    Mono,
    /// The same sample duplicated into both channels of a frame.
    Stereo,
}

impl ChannelLayout {
    /// Samples per frame under this layout.
    pub open spec fn channel_count_spec(self) -> int {
        match self {
            ChannelLayout::Mono => 1,
            ChannelLayout::Stereo => 2,
        }
    }

    /// Samples per frame under this layout.
    pub fn channel_count(self) -> (n: u8)
        ensures
            n as int == self.channel_count_spec(),
    {
        match self {
            ChannelLayout::Mono => 1,
            ChannelLayout::Stereo => 2,
        }
    }
}

/// How the controller asks the platform to open its output stream:
/// lowest-latency performance, shared device access, mono frames. The
/// sample format is fixed by the renderer and not chosen here.
#[derive(Clone, Copy, Debug, PartialEq, Eq, Structural)]
pub struct StreamConfig {
    /// Ask for the lowest-latency performance mode.
    pub low_latency: bool,
    /// Share the device rather than claiming it exclusively.
    pub shared: bool,
    /// Channel layout of the frames the callback fills.
    pub channels: ChannelLayout,
}

impl StreamConfig {
    /// The configuration the controller always opens with.
    pub open spec fn default_spec() -> StreamConfig {
        StreamConfig { low_latency: true, shared: true, channels: ChannelLayout::Mono }
    }
}

impl Default for StreamConfig {
    /// The configuration the controller always opens with: lowest
    /// latency, shared access, mono frames.
    fn default() -> (c: StreamConfig)
        ensures
            c == StreamConfig::default_spec(),
    {
        StreamConfig { low_latency: true, shared: true, channels: ChannelLayout::Mono }
    }
}

/// The core-visible state of one open stream session: the shared
/// parameter block, the oscillator bound to it, and whether the stream
/// is currently running or paused.
#[derive(Clone, Copy, Debug, PartialEq, Eq, Structural)]
pub struct ActiveStream {
    /// The session's shared parameter block.
    pub param: SineParam,
    /// The session's oscillator.
    pub wave: SineWave,
    /// Whether the stream is running; pausing clears this and nothing
    /// else, so the oscillator keeps its phase across a pause.
    pub running: bool,
}

impl ActiveStream {
    /// Both halves of the session are well formed.
    pub open spec fn wf(self) -> bool {
        self.param.wf() && self.wave.wf()
    }
}

/// The controller of a sine-wave stream: at most one session at a time.
pub struct AudioSineWaveGen {
    /// The open session, if any.
    pub stream: Option<ActiveStream>,
}

impl AudioSineWaveGen {
    /// Whatever session exists is well formed.
    pub open spec fn wf(self) -> bool {
        match self.stream {
            Option::Some(s) => s.wf(),
            Option::None => true,
        }
    }

    /// The oscillator of the open session, if any: the state that must
    /// survive a pause untouched.
    pub open spec fn oscillator(self) -> Option<SineWave> {
        match self.stream {
            Option::Some(s) => Option::Some(s.wave),
            Option::None => Option::None,
        }
    }

    /// What starting does: with a session already open, nothing at all;
    /// otherwise a fresh session is built around a default parameter
    /// block with the negotiated rate committed and an oscillator at
    /// phase zero, and the stream is set running.
    pub open spec fn start_spec(self, sample_rate_hz: u32) -> AudioSineWaveGen
        recommends
            sample_rate_hz > 0,
    {
        match self.stream {
            Option::Some(_) => self,
            Option::None => AudioSineWaveGen {
                stream: Option::Some(
                    ActiveStream {
                        param: SineParam::default_spec().set_sample_rate_spec(sample_rate_hz),
                        wave: SineWave { phase: 0 },
                        running: true,
                    },
                ),
            },
        }
    }

    /// What pausing does: nothing without a session; with one, only the
    /// running flag is cleared — parameters and phase are retained.
    pub open spec fn pause_spec(self) -> AudioSineWaveGen {
        match self.stream {
            Option::Some(s) => AudioSineWaveGen {
                stream: Option::Some(ActiveStream { running: false, ..s }),
            },
            Option::None => self,
        }
    }

    /// What stopping does: the session, if any, is dropped.
    pub open spec fn stop_spec(self) -> AudioSineWaveGen {
        AudioSineWaveGen { stream: Option::None }
    }

    /// A controller with no session.
    pub fn new() -> (g: AudioSineWaveGen)
        ensures
            g.stream is None,
            g.wf(),
    {
        AudioSineWaveGen { stream: Option::None }
    }

    /// Whether a session is open (running or paused).
    pub fn is_active(&self) -> (r: bool)
        ensures
            r == (self.stream is Some),
    {
        self.stream.is_some()
    }

    /// Start a stream session around the sample rate the platform
    /// negotiated when its stream was opened. A second start while a
    /// session exists is a silent no-op.
    pub fn try_start(&mut self, sample_rate_hz: u32)
        requires
            sample_rate_hz > 0,
        ensures
            *final(self) == old(self).start_spec(sample_rate_hz),
            old(self).wf() ==> final(self).wf(),
    {
        if self.stream.is_none() {
            let mut param = SineParam::default();
            param.set_sample_rate(sample_rate_hz);
            let wave = SineWave::new();
            self.stream = Option::Some(ActiveStream { param, wave, running: true });
        }
    }

    /// Pause the stream: a silent no-op without a session; with one,
    /// the session is kept whole — the oscillator's phase in
    /// particular — and only marked as not running.
    pub fn try_pause(&mut self)
        ensures
            *final(self) == old(self).pause_spec(),
            old(self).wf() ==> final(self).wf(),
    {
        let cur = self.stream.take();
        match cur {
            Option::Some(s) => {
                self.stream = Option::Some(ActiveStream { running: false, ..s });
            },
            Option::None => {
                self.stream = Option::None;
            },
        }
    }

    /// Stop the stream and drop the session; a silent no-op when no
    /// session exists.
    pub fn try_stop(&mut self)
        ensures
            *final(self) == old(self).stop_spec(),
            final(self).wf(),
    {
        self.stream = Option::None;
    }
}

impl Default for AudioSineWaveGen {
    /// A controller with no session.
    fn default() -> (g: AudioSineWaveGen)
        ensures
            g.stream is None,
            g.wf(),
    {
        AudioSineWaveGen { stream: Option::None }
    }
}

/// Pausing twice is the same as pausing once: the second pause leaves
/// the controller's state exactly unchanged and causes no error.
pub proof fn lemma_pause_idempotent(g: AudioSineWaveGen)
    ensures
        g.pause_spec().pause_spec() == g.pause_spec(),
{
}

/// Stopping when no session was ever started leaves the controller
/// exactly unchanged and causes no error.
pub proof fn lemma_stop_when_idle(g: AudioSineWaveGen)
    requires
        g.stream is None,
    ensures
        g.stop_spec() == g,
{
}

/// Starting while a session already exists is a silent no-op.
pub proof fn lemma_start_when_active(g: AudioSineWaveGen, sample_rate_hz: u32)
    requires
        g.stream is Some,
    ensures
        g.start_spec(sample_rate_hz) == g,
{
}

/// Pausing retains the oscillator: the phase at the moment of pausing
/// is the phase the generator resumes from, since only producing
/// samples ever advances it and a paused stream produces none.
pub proof fn lemma_pause_preserves_oscillator(g: AudioSineWaveGen)
    ensures
        g.pause_spec().oscillator() == g.oscillator(),
        g.pause_spec().stream is Some <==> g.stream is Some,
{
}

} // verus!
